//! Nine to thirty-two parameter values.
use crate::backend::{Backend, Encode};
use crate::chain::List;
use crate::label::Duplicate;
use crate::list::{HCons, HNil, IntoPreparedParam};
use crate::params::{encode_param, given, join, PreparedParamValues};
use vstd::prelude::*;

verus! {

impl<
    B: Backend,
    T0: Encode<B>,
    T1: Encode<B>,
    T2: Encode<B>,
    T3: Encode<B>,
    T4: Encode<B>,
    T5: Encode<B>,
    T6: Encode<B>,
    T7: Encode<B>,
    T8: Encode<B>,
    V0: IntoPreparedParam<T0> + Duplicate,
    V1: IntoPreparedParam<T1> + Duplicate,
    V2: IntoPreparedParam<T2> + Duplicate,
    V3: IntoPreparedParam<T3> + Duplicate,
    V4: IntoPreparedParam<T4> + Duplicate,
    V5: IntoPreparedParam<T5> + Duplicate,
    V6: IntoPreparedParam<T6> + Duplicate,
    V7: IntoPreparedParam<T7> + Duplicate,
    V8: IntoPreparedParam<T8> + Duplicate,
> PreparedParamValues<HCons<T0, HCons<T1, HCons<T2, HCons<T3, HCons<T4, HCons<T5, HCons<T6, HCons<T7, HCons<T8, HNil>>>>>>>>>, B> for (V0, V1, V2, V3, V4, V5, V6, V7, V8) {
    open spec fn all_encoded(&self, result: Result<List<B::Param>, B::Error>) -> bool {
        exists|r0: Result<List<B::Param>, B::Error>, r1: Result<List<B::Param>, B::Error>, r2: Result<List<B::Param>, B::Error>, r3: Result<List<B::Param>, B::Error>, r4: Result<List<B::Param>, B::Error>, r5: Result<List<B::Param>, B::Error>, r6: Result<List<B::Param>, B::Error>, r7: Result<List<B::Param>, B::Error>, r8: Result<List<B::Param>, B::Error>|
        {
            &&& #[trigger] crate::params::encodes::<B, T0, V0>(self.0, r0)
            &&& #[trigger] crate::params::encodes::<B, T1, V1>(self.1, r1)
            &&& #[trigger] crate::params::encodes::<B, T2, V2>(self.2, r2)
            &&& #[trigger] crate::params::encodes::<B, T3, V3>(self.3, r3)
            &&& #[trigger] crate::params::encodes::<B, T4, V4>(self.4, r4)
            &&& #[trigger] crate::params::encodes::<B, T5, V5>(self.5, r5)
            &&& #[trigger] crate::params::encodes::<B, T6, V6>(self.6, r6)
            &&& #[trigger] crate::params::encodes::<B, T7, V7>(self.7, r7)
            &&& #[trigger] crate::params::encodes::<B, T8, V8>(self.8, r8)
            &&& result == crate::params::joined(r0, crate::params::joined(r1, crate::params::joined(r2, crate::params::joined(r3, crate::params::joined(r4, crate::params::joined(r5, crate::params::joined(r6, crate::params::joined(r7, crate::params::joined(r8, Ok(List::Nil))))))))))
        }
    }

    open spec fn one_encoded(&self, index: usize, result: Result<Option<List<B::Param>>, B::Error>) -> bool {
            if index == 0 {
                exists|one: Result<List<B::Param>, B::Error>| #[trigger] crate::params::encodes::<B, T0, V0>(self.0, one) && result == crate::params::present(one)
            } else if index == 1 {
                exists|one: Result<List<B::Param>, B::Error>| #[trigger] crate::params::encodes::<B, T1, V1>(self.1, one) && result == crate::params::present(one)
            } else if index == 2 {
                exists|one: Result<List<B::Param>, B::Error>| #[trigger] crate::params::encodes::<B, T2, V2>(self.2, one) && result == crate::params::present(one)
            } else if index == 3 {
                exists|one: Result<List<B::Param>, B::Error>| #[trigger] crate::params::encodes::<B, T3, V3>(self.3, one) && result == crate::params::present(one)
            } else if index == 4 {
                exists|one: Result<List<B::Param>, B::Error>| #[trigger] crate::params::encodes::<B, T4, V4>(self.4, one) && result == crate::params::present(one)
            } else if index == 5 {
                exists|one: Result<List<B::Param>, B::Error>| #[trigger] crate::params::encodes::<B, T5, V5>(self.5, one) && result == crate::params::present(one)
            } else if index == 6 {
                exists|one: Result<List<B::Param>, B::Error>| #[trigger] crate::params::encodes::<B, T6, V6>(self.6, one) && result == crate::params::present(one)
            } else if index == 7 {
                exists|one: Result<List<B::Param>, B::Error>| #[trigger] crate::params::encodes::<B, T7, V7>(self.7, one) && result == crate::params::present(one)
            } else if index == 8 {
                exists|one: Result<List<B::Param>, B::Error>| #[trigger] crate::params::encodes::<B, T8, V8>(self.8, one) && result == crate::params::present(one)
            } else {
                result == Ok::<Option<List<B::Param>>, B::Error>(None)
            }
    }

    fn write_params(&self) -> (result: Result<List<B::Param>, B::Error>) {
        let r0 = encode_param::<B, T0, V0>(&self.0);
        let r1 = encode_param::<B, T1, V1>(&self.1);
        let r2 = encode_param::<B, T2, V2>(&self.2);
        let r3 = encode_param::<B, T3, V3>(&self.3);
        let r4 = encode_param::<B, T4, V4>(&self.4);
        let r5 = encode_param::<B, T5, V5>(&self.5);
        let r6 = encode_param::<B, T6, V6>(&self.6);
        let r7 = encode_param::<B, T7, V7>(&self.7);
        let r8 = encode_param::<B, T8, V8>(&self.8);
        join(r0, join(r1, join(r2, join(r3, join(r4, join(r5, join(r6, join(r7, join(r8, Ok(List::Nil))))))))))
    }

    fn write_param_at(&self, index: usize) -> (result: Result<Option<List<B::Param>>, B::Error>) {
        if index == 0 {
            given(encode_param::<B, T0, V0>(&self.0))
        } else if index == 1 {
            given(encode_param::<B, T1, V1>(&self.1))
        } else if index == 2 {
            given(encode_param::<B, T2, V2>(&self.2))
        } else if index == 3 {
            given(encode_param::<B, T3, V3>(&self.3))
        } else if index == 4 {
            given(encode_param::<B, T4, V4>(&self.4))
        } else if index == 5 {
            given(encode_param::<B, T5, V5>(&self.5))
        } else if index == 6 {
            given(encode_param::<B, T6, V6>(&self.6))
        } else if index == 7 {
            given(encode_param::<B, T7, V7>(&self.7))
        } else if index == 8 {
            given(encode_param::<B, T8, V8>(&self.8))
        } else {
            Ok(None)
        }
    }
}

impl<
    B: Backend,
    T0: Encode<B>,
    T1: Encode<B>,
    T2: Encode<B>,
    T3: Encode<B>,
    T4: Encode<B>,
    T5: Encode<B>,
    T6: Encode<B>,
    T7: Encode<B>,
    T8: Encode<B>,
    T9: Encode<B>,
    V0: IntoPreparedParam<T0> + Duplicate,
    V1: IntoPreparedParam<T1> + Duplicate,
    V2: IntoPreparedParam<T2> + Duplicate,
    V3: IntoPreparedParam<T3> + Duplicate,
    V4: IntoPreparedParam<T4> + Duplicate,
    V5: IntoPreparedParam<T5> + Duplicate,
    V6: IntoPreparedParam<T6> + Duplicate,
    V7: IntoPreparedParam<T7> + Duplicate,
    V8: IntoPreparedParam<T8> + Duplicate,
    V9: IntoPreparedParam<T9> + Duplicate,
> PreparedParamValues<HCons<T0, HCons<T1, HCons<T2, HCons<T3, HCons<T4, HCons<T5, HCons<T6, HCons<T7, HCons<T8, HCons<T9, HNil>>>>>>>>>>, B> for (V0, V1, V2, V3, V4, V5, V6, V7, V8, V9) {
    open spec fn all_encoded(&self, result: Result<List<B::Param>, B::Error>) -> bool {
        exists|r0: Result<List<B::Param>, B::Error>, r1: Result<List<B::Param>, B::Error>, r2: Result<List<B::Param>, B::Error>, r3: Result<List<B::Param>, B::Error>, r4: Result<List<B::Param>, B::Error>, r5: Result<List<B::Param>, B::Error>, r6: Result<List<B::Param>, B::Error>, r7: Result<List<B::Param>, B::Error>, r8: Result<List<B::Param>, B::Error>, r9: Result<List<B::Param>, B::Error>|
        {
            &&& #[trigger] crate::params::encodes::<B, T0, V0>(self.0, r0)
            &&& #[trigger] crate::params::encodes::<B, T1, V1>(self.1, r1)
            &&& #[trigger] crate::params::encodes::<B, T2, V2>(self.2, r2)
            &&& #[trigger] crate::params::encodes::<B, T3, V3>(self.3, r3)
            &&& #[trigger] crate::params::encodes::<B, T4, V4>(self.4, r4)
            &&& #[trigger] crate::params::encodes::<B, T5, V5>(self.5, r5)
            &&& #[trigger] crate::params::encodes::<B, T6, V6>(self.6, r6)
            &&& #[trigger] crate::params::encodes::<B, T7, V7>(self.7, r7)
            &&& #[trigger] crate::params::encodes::<B, T8, V8>(self.8, r8)
            &&& #[trigger] crate::params::encodes::<B, T9, V9>(self.9, r9)
            &&& result == crate::params::joined(r0, crate::params::joined(r1, crate::params::joined(r2, crate::params::joined(r3, crate::params::joined(r4, crate::params::joined(r5, crate::params::joined(r6, crate::params::joined(r7, crate::params::joined(r8, crate::params::joined(r9, Ok(List::Nil)))))))))))
        }
    }

    open spec fn one_encoded(&self, index: usize, result: Result<Option<List<B::Param>>, B::Error>) -> bool {
            if index == 0 {
                exists|one: Result<List<B::Param>, B::Error>| #[trigger] crate::params::encodes::<B, T0, V0>(self.0, one) && result == crate::params::present(one)
            } else if index == 1 {
                exists|one: Result<List<B::Param>, B::Error>| #[trigger] crate::params::encodes::<B, T1, V1>(self.1, one) && result == crate::params::present(one)
            } else if index == 2 {
                exists|one: Result<List<B::Param>, B::Error>| #[trigger] crate::params::encodes::<B, T2, V2>(self.2, one) && result == crate::params::present(one)
            } else if index == 3 {
                exists|one: Result<List<B::Param>, B::Error>| #[trigger] crate::params::encodes::<B, T3, V3>(self.3, one) && result == crate::params::present(one)
            } else if index == 4 {
                exists|one: Result<List<B::Param>, B::Error>| #[trigger] crate::params::encodes::<B, T4, V4>(self.4, one) && result == crate::params::present(one)
            } else if index == 5 {
                exists|one: Result<List<B::Param>, B::Error>| #[trigger] crate::params::encodes::<B, T5, V5>(self.5, one) && result == crate::params::present(one)
            } else if index == 6 {
                exists|one: Result<List<B::Param>, B::Error>| #[trigger] crate::params::encodes::<B, T6, V6>(self.6, one) && result == crate::params::present(one)
            } else if index == 7 {
                exists|one: Result<List<B::Param>, B::Error>| #[trigger] crate::params::encodes::<B, T7, V7>(self.7, one) && result == crate::params::present(one)
            } else if index == 8 {
                exists|one: Result<List<B::Param>, B::Error>| #[trigger] crate::params::encodes::<B, T8, V8>(self.8, one) && result == crate::params::present(one)
            } else if index == 9 {
                exists|one: Result<List<B::Param>, B::Error>| #[trigger] crate::params::encodes::<B, T9, V9>(self.9, one) && result == crate::params::present(one)
            } else {
                result == Ok::<Option<List<B::Param>>, B::Error>(None)
            }
    }

    fn write_params(&self) -> (result: Result<List<B::Param>, B::Error>) {
        let r0 = encode_param::<B, T0, V0>(&self.0);
        let r1 = encode_param::<B, T1, V1>(&self.1);
        let r2 = encode_param::<B, T2, V2>(&self.2);
        let r3 = encode_param::<B, T3, V3>(&self.3);
        let r4 = encode_param::<B, T4, V4>(&self.4);
        let r5 = encode_param::<B, T5, V5>(&self.5);
        let r6 = encode_param::<B, T6, V6>(&self.6);
        let r7 = encode_param::<B, T7, V7>(&self.7);
        let r8 = encode_param::<B, T8, V8>(&self.8);
        let r9 = encode_param::<B, T9, V9>(&self.9);
        join(r0, join(r1, join(r2, join(r3, join(r4, join(r5, join(r6, join(r7, join(r8, join(r9, Ok(List::Nil)))))))))))
    }

    fn write_param_at(&self, index: usize) -> (result: Result<Option<List<B::Param>>, B::Error>) {
        if index == 0 {
            given(encode_param::<B, T0, V0>(&self.0))
        } else if index == 1 {
            given(encode_param::<B, T1, V1>(&self.1))
        } else if index == 2 {
            given(encode_param::<B, T2, V2>(&self.2))
        } else if index == 3 {
            given(encode_param::<B, T3, V3>(&self.3))
        } else if index == 4 {
            given(encode_param::<B, T4, V4>(&self.4))
        } else if index == 5 {
            given(encode_param::<B, T5, V5>(&self.5))
        } else if index == 6 {
            given(encode_param::<B, T6, V6>(&self.6))
        } else if index == 7 {
            given(encode_param::<B, T7, V7>(&self.7))
        } else if index == 8 {
            given(encode_param::<B, T8, V8>(&self.8))
        } else if index == 9 {
            given(encode_param::<B, T9, V9>(&self.9))
        } else {
            Ok(None)
        }
    }
}

impl<
    B: Backend,
    T0: Encode<B>,
    T1: Encode<B>,
    T2: Encode<B>,
    T3: Encode<B>,
    T4: Encode<B>,
    T5: Encode<B>,
    T6: Encode<B>,
    T7: Encode<B>,
    T8: Encode<B>,
    T9: Encode<B>,
    T10: Encode<B>,
    V0: IntoPreparedParam<T0> + Duplicate,
    V1: IntoPreparedParam<T1> + Duplicate,
    V2: IntoPreparedParam<T2> + Duplicate,
    V3: IntoPreparedParam<T3> + Duplicate,
    V4: IntoPreparedParam<T4> + Duplicate,
    V5: IntoPreparedParam<T5> + Duplicate,
    V6: IntoPreparedParam<T6> + Duplicate,
    V7: IntoPreparedParam<T7> + Duplicate,
    V8: IntoPreparedParam<T8> + Duplicate,
    V9: IntoPreparedParam<T9> + Duplicate,
    V10: IntoPreparedParam<T10> + Duplicate,
> PreparedParamValues<HCons<T0, HCons<T1, HCons<T2, HCons<T3, HCons<T4, HCons<T5, HCons<T6, HCons<T7, HCons<T8, HCons<T9, HCons<T10, HNil>>>>>>>>>>>, B> for (V0, V1, V2, V3, V4, V5, V6, V7, V8, V9, V10) {
    open spec fn all_encoded(&self, result: Result<List<B::Param>, B::Error>) -> bool {
        exists|r0: Result<List<B::Param>, B::Error>, r1: Result<List<B::Param>, B::Error>, r2: Result<List<B::Param>, B::Error>, r3: Result<List<B::Param>, B::Error>, r4: Result<List<B::Param>, B::Error>, r5: Result<List<B::Param>, B::Error>, r6: Result<List<B::Param>, B::Error>, r7: Result<List<B::Param>, B::Error>, r8: Result<List<B::Param>, B::Error>, r9: Result<List<B::Param>, B::Error>, r10: Result<List<B::Param>, B::Error>|
        {
            &&& #[trigger] crate::params::encodes::<B, T0, V0>(self.0, r0)
            &&& #[trigger] crate::params::encodes::<B, T1, V1>(self.1, r1)
            &&& #[trigger] crate::params::encodes::<B, T2, V2>(self.2, r2)
            &&& #[trigger] crate::params::encodes::<B, T3, V3>(self.3, r3)
            &&& #[trigger] crate::params::encodes::<B, T4, V4>(self.4, r4)
            &&& #[trigger] crate::params::encodes::<B, T5, V5>(self.5, r5)
            &&& #[trigger] crate::params::encodes::<B, T6, V6>(self.6, r6)
            &&& #[trigger] crate::params::encodes::<B, T7, V7>(self.7, r7)
            &&& #[trigger] crate::params::encodes::<B, T8, V8>(self.8, r8)
            &&& #[trigger] crate::params::encodes::<B, T9, V9>(self.9, r9)
            &&& #[trigger] crate::params::encodes::<B, T10, V10>(self.10, r10)
            &&& result == crate::params::joined(r0, crate::params::joined(r1, crate::params::joined(r2, crate::params::joined(r3, crate::params::joined(r4, crate::params::joined(r5, crate::params::joined(r6, crate::params::joined(r7, crate::params::joined(r8, crate::params::joined(r9, crate::params::joined(r10, Ok(List::Nil))))))))))))
        }
    }

    open spec fn one_encoded(&self, index: usize, result: Result<Option<List<B::Param>>, B::Error>) -> bool {
            if index == 0 {
                exists|one: Result<List<B::Param>, B::Error>| #[trigger] crate::params::encodes::<B, T0, V0>(self.0, one) && result == crate::params::present(one)
            } else if index == 1 {
                exists|one: Result<List<B::Param>, B::Error>| #[trigger] crate::params::encodes::<B, T1, V1>(self.1, one) && result == crate::params::present(one)
            } else if index == 2 {
                exists|one: Result<List<B::Param>, B::Error>| #[trigger] crate::params::encodes::<B, T2, V2>(self.2, one) && result == crate::params::present(one)
            } else if index == 3 {
                exists|one: Result<List<B::Param>, B::Error>| #[trigger] crate::params::encodes::<B, T3, V3>(self.3, one) && result == crate::params::present(one)
            } else if index == 4 {
                exists|one: Result<List<B::Param>, B::Error>| #[trigger] crate::params::encodes::<B, T4, V4>(self.4, one) && result == crate::params::present(one)
            } else if index == 5 {
                exists|one: Result<List<B::Param>, B::Error>| #[trigger] crate::params::encodes::<B, T5, V5>(self.5, one) && result == crate::params::present(one)
            } else if index == 6 {
                exists|one: Result<List<B::Param>, B::Error>| #[trigger] crate::params::encodes::<B, T6, V6>(self.6, one) && result == crate::params::present(one)
            } else if index == 7 {
                exists|one: Result<List<B::Param>, B::Error>| #[trigger] crate::params::encodes::<B, T7, V7>(self.7, one) && result == crate::params::present(one)
            } else if index == 8 {
                exists|one: Result<List<B::Param>, B::Error>| #[trigger] crate::params::encodes::<B, T8, V8>(self.8, one) && result == crate::params::present(one)
            } else if index == 9 {
                exists|one: Result<List<B::Param>, B::Error>| #[trigger] crate::params::encodes::<B, T9, V9>(self.9, one) && result == crate::params::present(one)
            } else if index == 10 {
                exists|one: Result<List<B::Param>, B::Error>| #[trigger] crate::params::encodes::<B, T10, V10>(self.10, one) && result == crate::params::present(one)
            } else {
                result == Ok::<Option<List<B::Param>>, B::Error>(None)
            }
    }

    fn write_params(&self) -> (result: Result<List<B::Param>, B::Error>) {
        let r0 = encode_param::<B, T0, V0>(&self.0);
        let r1 = encode_param::<B, T1, V1>(&self.1);
        let r2 = encode_param::<B, T2, V2>(&self.2);
        let r3 = encode_param::<B, T3, V3>(&self.3);
        let r4 = encode_param::<B, T4, V4>(&self.4);
        let r5 = encode_param::<B, T5, V5>(&self.5);
        let r6 = encode_param::<B, T6, V6>(&self.6);
        let r7 = encode_param::<B, T7, V7>(&self.7);
        let r8 = encode_param::<B, T8, V8>(&self.8);
        let r9 = encode_param::<B, T9, V9>(&self.9);
        let r10 = encode_param::<B, T10, V10>(&self.10);
        join(r0, join(r1, join(r2, join(r3, join(r4, join(r5, join(r6, join(r7, join(r8, join(r9, join(r10, Ok(List::Nil))))))))))))
    }

    fn write_param_at(&self, index: usize) -> (result: Result<Option<List<B::Param>>, B::Error>) {
        if index == 0 {
            given(encode_param::<B, T0, V0>(&self.0))
        } else if index == 1 {
            given(encode_param::<B, T1, V1>(&self.1))
        } else if index == 2 {
            given(encode_param::<B, T2, V2>(&self.2))
        } else if index == 3 {
            given(encode_param::<B, T3, V3>(&self.3))
        } else if index == 4 {
            given(encode_param::<B, T4, V4>(&self.4))
        } else if index == 5 {
            given(encode_param::<B, T5, V5>(&self.5))
        } else if index == 6 {
            given(encode_param::<B, T6, V6>(&self.6))
        } else if index == 7 {
            given(encode_param::<B, T7, V7>(&self.7))
        } else if index == 8 {
            given(encode_param::<B, T8, V8>(&self.8))
        } else if index == 9 {
            given(encode_param::<B, T9, V9>(&self.9))
        } else if index == 10 {
            given(encode_param::<B, T10, V10>(&self.10))
        } else {
            Ok(None)
        }
    }
}

impl<
    B: Backend,
    T0: Encode<B>,
    T1: Encode<B>,
    T2: Encode<B>,
    T3: Encode<B>,
    T4: Encode<B>,
    T5: Encode<B>,
    T6: Encode<B>,
    T7: Encode<B>,
    T8: Encode<B>,
    T9: Encode<B>,
    T10: Encode<B>,
    T11: Encode<B>,
    V0: IntoPreparedParam<T0> + Duplicate,
    V1: IntoPreparedParam<T1> + Duplicate,
    V2: IntoPreparedParam<T2> + Duplicate,
    V3: IntoPreparedParam<T3> + Duplicate,
    V4: IntoPreparedParam<T4> + Duplicate,
    V5: IntoPreparedParam<T5> + Duplicate,
    V6: IntoPreparedParam<T6> + Duplicate,
    V7: IntoPreparedParam<T7> + Duplicate,
    V8: IntoPreparedParam<T8> + Duplicate,
    V9: IntoPreparedParam<T9> + Duplicate,
    V10: IntoPreparedParam<T10> + Duplicate,
    V11: IntoPreparedParam<T11> + Duplicate,
> PreparedParamValues<HCons<T0, HCons<T1, HCons<T2, HCons<T3, HCons<T4, HCons<T5, HCons<T6, HCons<T7, HCons<T8, HCons<T9, HCons<T10, HCons<T11, HNil>>>>>>>>>>>>, B> for (V0, V1, V2, V3, V4, V5, V6, V7, V8, V9, V10, V11) {
    open spec fn all_encoded(&self, result: Result<List<B::Param>, B::Error>) -> bool {
        exists|r0: Result<List<B::Param>, B::Error>, r1: Result<List<B::Param>, B::Error>, r2: Result<List<B::Param>, B::Error>, r3: Result<List<B::Param>, B::Error>, r4: Result<List<B::Param>, B::Error>, r5: Result<List<B::Param>, B::Error>, r6: Result<List<B::Param>, B::Error>, r7: Result<List<B::Param>, B::Error>, r8: Result<List<B::Param>, B::Error>, r9: Result<List<B::Param>, B::Error>, r10: Result<List<B::Param>, B::Error>, r11: Result<List<B::Param>, B::Error>|
        {
            &&& #[trigger] crate::params::encodes::<B, T0, V0>(self.0, r0)
            &&& #[trigger] crate::params::encodes::<B, T1, V1>(self.1, r1)
            &&& #[trigger] crate::params::encodes::<B, T2, V2>(self.2, r2)
            &&& #[trigger] crate::params::encodes::<B, T3, V3>(self.3, r3)
            &&& #[trigger] crate::params::encodes::<B, T4, V4>(self.4, r4)
            &&& #[trigger] crate::params::encodes::<B, T5, V5>(self.5, r5)
            &&& #[trigger] crate::params::encodes::<B, T6, V6>(self.6, r6)
            &&& #[trigger] crate::params::encodes::<B, T7, V7>(self.7, r7)
            &&& #[trigger] crate::params::encodes::<B, T8, V8>(self.8, r8)
            &&& #[trigger] crate::params::encodes::<B, T9, V9>(self.9, r9)
            &&& #[trigger] crate::params::encodes::<B, T10, V10>(self.10, r10)
            &&& #[trigger] crate::params::encodes::<B, T11, V11>(self.11, r11)
            &&& result == crate::params::joined(r0, crate::params::joined(r1, crate::params::joined(r2, crate::params::joined(r3, crate::params::joined(r4, crate::params::joined(r5, crate::params::joined(r6, crate::params::joined(r7, crate::params::joined(r8, crate::params::joined(r9, crate::params::joined(r10, crate::params::joined(r11, Ok(List::Nil)))))))))))))
        }
    }

    open spec fn one_encoded(&self, index: usize, result: Result<Option<List<B::Param>>, B::Error>) -> bool {
            if index == 0 {
                exists|one: Result<List<B::Param>, B::Error>| #[trigger] crate::params::encodes::<B, T0, V0>(self.0, one) && result == crate::params::present(one)
            } else if index == 1 {
                exists|one: Result<List<B::Param>, B::Error>| #[trigger] crate::params::encodes::<B, T1, V1>(self.1, one) && result == crate::params::present(one)
            } else if index == 2 {
                exists|one: Result<List<B::Param>, B::Error>| #[trigger] crate::params::encodes::<B, T2, V2>(self.2, one) && result == crate::params::present(one)
            } else if index == 3 {
                exists|one: Result<List<B::Param>, B::Error>| #[trigger] crate::params::encodes::<B, T3, V3>(self.3, one) && result == crate::params::present(one)
            } else if index == 4 {
                exists|one: Result<List<B::Param>, B::Error>| #[trigger] crate::params::encodes::<B, T4, V4>(self.4, one) && result == crate::params::present(one)
            } else if index == 5 {
                exists|one: Result<List<B::Param>, B::Error>| #[trigger] crate::params::encodes::<B, T5, V5>(self.5, one) && result == crate::params::present(one)
            } else if index == 6 {
                exists|one: Result<List<B::Param>, B::Error>| #[trigger] crate::params::encodes::<B, T6, V6>(self.6, one) && result == crate::params::present(one)
            } else if index == 7 {
                exists|one: Result<List<B::Param>, B::Error>| #[trigger] crate::params::encodes::<B, T7, V7>(self.7, one) && result == crate::params::present(one)
            } else if index == 8 {
                exists|one: Result<List<B::Param>, B::Error>| #[trigger] crate::params::encodes::<B, T8, V8>(self.8, one) && result == crate::params::present(one)
            } else if index == 9 {
                exists|one: Result<List<B::Param>, B::Error>| #[trigger] crate::params::encodes::<B, T9, V9>(self.9, one) && result == crate::params::present(one)
            } else if index == 10 {
                exists|one: Result<List<B::Param>, B::Error>| #[trigger] crate::params::encodes::<B, T10, V10>(self.10, one) && result == crate::params::present(one)
            } else if index == 11 {
                exists|one: Result<List<B::Param>, B::Error>| #[trigger] crate::params::encodes::<B, T11, V11>(self.11, one) && result == crate::params::present(one)
            } else {
                result == Ok::<Option<List<B::Param>>, B::Error>(None)
            }
    }

    fn write_params(&self) -> (result: Result<List<B::Param>, B::Error>) {
        let r0 = encode_param::<B, T0, V0>(&self.0);
        let r1 = encode_param::<B, T1, V1>(&self.1);
        let r2 = encode_param::<B, T2, V2>(&self.2);
        let r3 = encode_param::<B, T3, V3>(&self.3);
        let r4 = encode_param::<B, T4, V4>(&self.4);
        let r5 = encode_param::<B, T5, V5>(&self.5);
        let r6 = encode_param::<B, T6, V6>(&self.6);
        let r7 = encode_param::<B, T7, V7>(&self.7);
        let r8 = encode_param::<B, T8, V8>(&self.8);
        let r9 = encode_param::<B, T9, V9>(&self.9);
        let r10 = encode_param::<B, T10, V10>(&self.10);
        let r11 = encode_param::<B, T11, V11>(&self.11);
        join(r0, join(r1, join(r2, join(r3, join(r4, join(r5, join(r6, join(r7, join(r8, join(r9, join(r10, join(r11, Ok(List::Nil)))))))))))))
    }

    fn write_param_at(&self, index: usize) -> (result: Result<Option<List<B::Param>>, B::Error>) {
        if index == 0 {
            given(encode_param::<B, T0, V0>(&self.0))
        } else if index == 1 {
            given(encode_param::<B, T1, V1>(&self.1))
        } else if index == 2 {
            given(encode_param::<B, T2, V2>(&self.2))
        } else if index == 3 {
            given(encode_param::<B, T3, V3>(&self.3))
        } else if index == 4 {
            given(encode_param::<B, T4, V4>(&self.4))
        } else if index == 5 {
            given(encode_param::<B, T5, V5>(&self.5))
        } else if index == 6 {
            given(encode_param::<B, T6, V6>(&self.6))
        } else if index == 7 {
            given(encode_param::<B, T7, V7>(&self.7))
        } else if index == 8 {
            given(encode_param::<B, T8, V8>(&self.8))
        } else if index == 9 {
            given(encode_param::<B, T9, V9>(&self.9))
        } else if index == 10 {
            given(encode_param::<B, T10, V10>(&self.10))
        } else if index == 11 {
            given(encode_param::<B, T11, V11>(&self.11))
        } else {
            Ok(None)
        }
    }
}

impl<
    B: Backend,
    T0: Encode<B>,
    T1: Encode<B>,
    T2: Encode<B>,
    T3: Encode<B>,
    T4: Encode<B>,
    T5: Encode<B>,
    T6: Encode<B>,
    T7: Encode<B>,
    T8: Encode<B>,
    T9: Encode<B>,
    T10: Encode<B>,
    T11: Encode<B>,
    T12: Encode<B>,
    V0: IntoPreparedParam<T0> + Duplicate,
    V1: IntoPreparedParam<T1> + Duplicate,
    V2: IntoPreparedParam<T2> + Duplicate,
    V3: IntoPreparedParam<T3> + Duplicate,
    V4: IntoPreparedParam<T4> + Duplicate,
    V5: IntoPreparedParam<T5> + Duplicate,
    V6: IntoPreparedParam<T6> + Duplicate,
    V7: IntoPreparedParam<T7> + Duplicate,
    V8: IntoPreparedParam<T8> + Duplicate,
    V9: IntoPreparedParam<T9> + Duplicate,
    V10: IntoPreparedParam<T10> + Duplicate,
    V11: IntoPreparedParam<T11> + Duplicate,
    V12: IntoPreparedParam<T12> + Duplicate,
> PreparedParamValues<HCons<T0, HCons<T1, HCons<T2, HCons<T3, HCons<T4, HCons<T5, HCons<T6, HCons<T7, HCons<T8, HCons<T9, HCons<T10, HCons<T11, HCons<T12, HNil>>>>>>>>>>>>>, B> for (V0, V1, V2, V3, V4, V5, V6, V7, V8, V9, V10, V11, V12) {
    open spec fn all_encoded(&self, result: Result<List<B::Param>, B::Error>) -> bool {
        exists|r0: Result<List<B::Param>, B::Error>, r1: Result<List<B::Param>, B::Error>, r2: Result<List<B::Param>, B::Error>, r3: Result<List<B::Param>, B::Error>, r4: Result<List<B::Param>, B::Error>, r5: Result<List<B::Param>, B::Error>, r6: Result<List<B::Param>, B::Error>, r7: Result<List<B::Param>, B::Error>, r8: Result<List<B::Param>, B::Error>, r9: Result<List<B::Param>, B::Error>, r10: Result<List<B::Param>, B::Error>, r11: Result<List<B::Param>, B::Error>, r12: Result<List<B::Param>, B::Error>|
        {
            &&& #[trigger] crate::params::encodes::<B, T0, V0>(self.0, r0)
            &&& #[trigger] crate::params::encodes::<B, T1, V1>(self.1, r1)
            &&& #[trigger] crate::params::encodes::<B, T2, V2>(self.2, r2)
            &&& #[trigger] crate::params::encodes::<B, T3, V3>(self.3, r3)
            &&& #[trigger] crate::params::encodes::<B, T4, V4>(self.4, r4)
            &&& #[trigger] crate::params::encodes::<B, T5, V5>(self.5, r5)
            &&& #[trigger] crate::params::encodes::<B, T6, V6>(self.6, r6)
            &&& #[trigger] crate::params::encodes::<B, T7, V7>(self.7, r7)
            &&& #[trigger] crate::params::encodes::<B, T8, V8>(self.8, r8)
            &&& #[trigger] crate::params::encodes::<B, T9, V9>(self.9, r9)
            &&& #[trigger] crate::params::encodes::<B, T10, V10>(self.10, r10)
            &&& #[trigger] crate::params::encodes::<B, T11, V11>(self.11, r11)
            &&& #[trigger] crate::params::encodes::<B, T12, V12>(self.12, r12)
            &&& result == crate::params::joined(r0, crate::params::joined(r1, crate::params::joined(r2, crate::params::joined(r3, crate::params::joined(r4, crate::params::joined(r5, crate::params::joined(r6, crate::params::joined(r7, crate::params::joined(r8, crate::params::joined(r9, crate::params::joined(r10, crate::params::joined(r11, crate::params::joined(r12, Ok(List::Nil))))))))))))))
        }
    }

    open spec fn one_encoded(&self, index: usize, result: Result<Option<List<B::Param>>, B::Error>) -> bool {
            if index == 0 {
                exists|one: Result<List<B::Param>, B::Error>| #[trigger] crate::params::encodes::<B, T0, V0>(self.0, one) && result == crate::params::present(one)
            } else if index == 1 {
                exists|one: Result<List<B::Param>, B::Error>| #[trigger] crate::params::encodes::<B, T1, V1>(self.1, one) && result == crate::params::present(one)
            } else if index == 2 {
                exists|one: Result<List<B::Param>, B::Error>| #[trigger] crate::params::encodes::<B, T2, V2>(self.2, one) && result == crate::params::present(one)
            } else if index == 3 {
                exists|one: Result<List<B::Param>, B::Error>| #[trigger] crate::params::encodes::<B, T3, V3>(self.3, one) && result == crate::params::present(one)
            } else if index == 4 {
                exists|one: Result<List<B::Param>, B::Error>| #[trigger] crate::params::encodes::<B, T4, V4>(self.4, one) && result == crate::params::present(one)
            } else if index == 5 {
                exists|one: Result<List<B::Param>, B::Error>| #[trigger] crate::params::encodes::<B, T5, V5>(self.5, one) && result == crate::params::present(one)
            } else if index == 6 {
                exists|one: Result<List<B::Param>, B::Error>| #[trigger] crate::params::encodes::<B, T6, V6>(self.6, one) && result == crate::params::present(one)
            } else if index == 7 {
                exists|one: Result<List<B::Param>, B::Error>| #[trigger] crate::params::encodes::<B, T7, V7>(self.7, one) && result == crate::params::present(one)
            } else if index == 8 {
                exists|one: Result<List<B::Param>, B::Error>| #[trigger] crate::params::encodes::<B, T8, V8>(self.8, one) && result == crate::params::present(one)
            } else if index == 9 {
                exists|one: Result<List<B::Param>, B::Error>| #[trigger] crate::params::encodes::<B, T9, V9>(self.9, one) && result == crate::params::present(one)
            } else if index == 10 {
                exists|one: Result<List<B::Param>, B::Error>| #[trigger] crate::params::encodes::<B, T10, V10>(self.10, one) && result == crate::params::present(one)
            } else if index == 11 {
                exists|one: Result<List<B::Param>, B::Error>| #[trigger] crate::params::encodes::<B, T11, V11>(self.11, one) && result == crate::params::present(one)
            } else if index == 12 {
                exists|one: Result<List<B::Param>, B::Error>| #[trigger] crate::params::encodes::<B, T12, V12>(self.12, one) && result == crate::params::present(one)
            } else {
                result == Ok::<Option<List<B::Param>>, B::Error>(None)
            }
    }

    fn write_params(&self) -> (result: Result<List<B::Param>, B::Error>) {
        let r0 = encode_param::<B, T0, V0>(&self.0);
        let r1 = encode_param::<B, T1, V1>(&self.1);
        let r2 = encode_param::<B, T2, V2>(&self.2);
        let r3 = encode_param::<B, T3, V3>(&self.3);
        let r4 = encode_param::<B, T4, V4>(&self.4);
        let r5 = encode_param::<B, T5, V5>(&self.5);
        let r6 = encode_param::<B, T6, V6>(&self.6);
        let r7 = encode_param::<B, T7, V7>(&self.7);
        let r8 = encode_param::<B, T8, V8>(&self.8);
        let r9 = encode_param::<B, T9, V9>(&self.9);
        let r10 = encode_param::<B, T10, V10>(&self.10);
        let r11 = encode_param::<B, T11, V11>(&self.11);
        let r12 = encode_param::<B, T12, V12>(&self.12);
        join(r0, join(r1, join(r2, join(r3, join(r4, join(r5, join(r6, join(r7, join(r8, join(r9, join(r10, join(r11, join(r12, Ok(List::Nil))))))))))))))
    }

    fn write_param_at(&self, index: usize) -> (result: Result<Option<List<B::Param>>, B::Error>) {
        if index == 0 {
            given(encode_param::<B, T0, V0>(&self.0))
        } else if index == 1 {
            given(encode_param::<B, T1, V1>(&self.1))
        } else if index == 2 {
            given(encode_param::<B, T2, V2>(&self.2))
        } else if index == 3 {
            given(encode_param::<B, T3, V3>(&self.3))
        } else if index == 4 {
            given(encode_param::<B, T4, V4>(&self.4))
        } else if index == 5 {
            given(encode_param::<B, T5, V5>(&self.5))
        } else if index == 6 {
            given(encode_param::<B, T6, V6>(&self.6))
        } else if index == 7 {
            given(encode_param::<B, T7, V7>(&self.7))
        } else if index == 8 {
            given(encode_param::<B, T8, V8>(&self.8))
        } else if index == 9 {
            given(encode_param::<B, T9, V9>(&self.9))
        } else if index == 10 {
            given(encode_param::<B, T10, V10>(&self.10))
        } else if index == 11 {
            given(encode_param::<B, T11, V11>(&self.11))
        } else if index == 12 {
            given(encode_param::<B, T12, V12>(&self.12))
        } else {
            Ok(None)
        }
    }
}

impl<
    B: Backend,
    T0: Encode<B>,
    T1: Encode<B>,
    T2: Encode<B>,
    T3: Encode<B>,
    T4: Encode<B>,
    T5: Encode<B>,
    T6: Encode<B>,
    T7: Encode<B>,
    T8: Encode<B>,
    T9: Encode<B>,
    T10: Encode<B>,
    T11: Encode<B>,
    T12: Encode<B>,
    T13: Encode<B>,
    V0: IntoPreparedParam<T0> + Duplicate,
    V1: IntoPreparedParam<T1> + Duplicate,
    V2: IntoPreparedParam<T2> + Duplicate,
    V3: IntoPreparedParam<T3> + Duplicate,
    V4: IntoPreparedParam<T4> + Duplicate,
    V5: IntoPreparedParam<T5> + Duplicate,
    V6: IntoPreparedParam<T6> + Duplicate,
    V7: IntoPreparedParam<T7> + Duplicate,
    V8: IntoPreparedParam<T8> + Duplicate,
    V9: IntoPreparedParam<T9> + Duplicate,
    V10: IntoPreparedParam<T10> + Duplicate,
    V11: IntoPreparedParam<T11> + Duplicate,
    V12: IntoPreparedParam<T12> + Duplicate,
    V13: IntoPreparedParam<T13> + Duplicate,
> PreparedParamValues<HCons<T0, HCons<T1, HCons<T2, HCons<T3, HCons<T4, HCons<T5, HCons<T6, HCons<T7, HCons<T8, HCons<T9, HCons<T10, HCons<T11, HCons<T12, HCons<T13, HNil>>>>>>>>>>>>>>, B> for (V0, V1, V2, V3, V4, V5, V6, V7, V8, V9, V10, V11, V12, V13) {
    open spec fn all_encoded(&self, result: Result<List<B::Param>, B::Error>) -> bool {
        exists|r0: Result<List<B::Param>, B::Error>, r1: Result<List<B::Param>, B::Error>, r2: Result<List<B::Param>, B::Error>, r3: Result<List<B::Param>, B::Error>, r4: Result<List<B::Param>, B::Error>, r5: Result<List<B::Param>, B::Error>, r6: Result<List<B::Param>, B::Error>, r7: Result<List<B::Param>, B::Error>, r8: Result<List<B::Param>, B::Error>, r9: Result<List<B::Param>, B::Error>, r10: Result<List<B::Param>, B::Error>, r11: Result<List<B::Param>, B::Error>, r12: Result<List<B::Param>, B::Error>, r13: Result<List<B::Param>, B::Error>|
        {
            &&& #[trigger] crate::params::encodes::<B, T0, V0>(self.0, r0)
            &&& #[trigger] crate::params::encodes::<B, T1, V1>(self.1, r1)
            &&& #[trigger] crate::params::encodes::<B, T2, V2>(self.2, r2)
            &&& #[trigger] crate::params::encodes::<B, T3, V3>(self.3, r3)
            &&& #[trigger] crate::params::encodes::<B, T4, V4>(self.4, r4)
            &&& #[trigger] crate::params::encodes::<B, T5, V5>(self.5, r5)
            &&& #[trigger] crate::params::encodes::<B, T6, V6>(self.6, r6)
            &&& #[trigger] crate::params::encodes::<B, T7, V7>(self.7, r7)
            &&& #[trigger] crate::params::encodes::<B, T8, V8>(self.8, r8)
            &&& #[trigger] crate::params::encodes::<B, T9, V9>(self.9, r9)
            &&& #[trigger] crate::params::encodes::<B, T10, V10>(self.10, r10)
            &&& #[trigger] crate::params::encodes::<B, T11, V11>(self.11, r11)
            &&& #[trigger] crate::params::encodes::<B, T12, V12>(self.12, r12)
            &&& #[trigger] crate::params::encodes::<B, T13, V13>(self.13, r13)
            &&& result == crate::params::joined(r0, crate::params::joined(r1, crate::params::joined(r2, crate::params::joined(r3, crate::params::joined(r4, crate::params::joined(r5, crate::params::joined(r6, crate::params::joined(r7, crate::params::joined(r8, crate::params::joined(r9, crate::params::joined(r10, crate::params::joined(r11, crate::params::joined(r12, crate::params::joined(r13, Ok(List::Nil)))))))))))))))
        }
    }

    open spec fn one_encoded(&self, index: usize, result: Result<Option<List<B::Param>>, B::Error>) -> bool {
            if index == 0 {
                exists|one: Result<List<B::Param>, B::Error>| #[trigger] crate::params::encodes::<B, T0, V0>(self.0, one) && result == crate::params::present(one)
            } else if index == 1 {
                exists|one: Result<List<B::Param>, B::Error>| #[trigger] crate::params::encodes::<B, T1, V1>(self.1, one) && result == crate::params::present(one)
            } else if index == 2 {
                exists|one: Result<List<B::Param>, B::Error>| #[trigger] crate::params::encodes::<B, T2, V2>(self.2, one) && result == crate::params::present(one)
            } else if index == 3 {
                exists|one: Result<List<B::Param>, B::Error>| #[trigger] crate::params::encodes::<B, T3, V3>(self.3, one) && result == crate::params::present(one)
            } else if index == 4 {
                exists|one: Result<List<B::Param>, B::Error>| #[trigger] crate::params::encodes::<B, T4, V4>(self.4, one) && result == crate::params::present(one)
            } else if index == 5 {
                exists|one: Result<List<B::Param>, B::Error>| #[trigger] crate::params::encodes::<B, T5, V5>(self.5, one) && result == crate::params::present(one)
            } else if index == 6 {
                exists|one: Result<List<B::Param>, B::Error>| #[trigger] crate::params::encodes::<B, T6, V6>(self.6, one) && result == crate::params::present(one)
            } else if index == 7 {
                exists|one: Result<List<B::Param>, B::Error>| #[trigger] crate::params::encodes::<B, T7, V7>(self.7, one) && result == crate::params::present(one)
            } else if index == 8 {
                exists|one: Result<List<B::Param>, B::Error>| #[trigger] crate::params::encodes::<B, T8, V8>(self.8, one) && result == crate::params::present(one)
            } else if index == 9 {
                exists|one: Result<List<B::Param>, B::Error>| #[trigger] crate::params::encodes::<B, T9, V9>(self.9, one) && result == crate::params::present(one)
            } else if index == 10 {
                exists|one: Result<List<B::Param>, B::Error>| #[trigger] crate::params::encodes::<B, T10, V10>(self.10, one) && result == crate::params::present(one)
            } else if index == 11 {
                exists|one: Result<List<B::Param>, B::Error>| #[trigger] crate::params::encodes::<B, T11, V11>(self.11, one) && result == crate::params::present(one)
            } else if index == 12 {
                exists|one: Result<List<B::Param>, B::Error>| #[trigger] crate::params::encodes::<B, T12, V12>(self.12, one) && result == crate::params::present(one)
            } else if index == 13 {
                exists|one: Result<List<B::Param>, B::Error>| #[trigger] crate::params::encodes::<B, T13, V13>(self.13, one) && result == crate::params::present(one)
            } else {
                result == Ok::<Option<List<B::Param>>, B::Error>(None)
            }
    }

    fn write_params(&self) -> (result: Result<List<B::Param>, B::Error>) {
        let r0 = encode_param::<B, T0, V0>(&self.0);
        let r1 = encode_param::<B, T1, V1>(&self.1);
        let r2 = encode_param::<B, T2, V2>(&self.2);
        let r3 = encode_param::<B, T3, V3>(&self.3);
        let r4 = encode_param::<B, T4, V4>(&self.4);
        let r5 = encode_param::<B, T5, V5>(&self.5);
        let r6 = encode_param::<B, T6, V6>(&self.6);
        let r7 = encode_param::<B, T7, V7>(&self.7);
        let r8 = encode_param::<B, T8, V8>(&self.8);
        let r9 = encode_param::<B, T9, V9>(&self.9);
        let r10 = encode_param::<B, T10, V10>(&self.10);
        let r11 = encode_param::<B, T11, V11>(&self.11);
        let r12 = encode_param::<B, T12, V12>(&self.12);
        let r13 = encode_param::<B, T13, V13>(&self.13);
        join(r0, join(r1, join(r2, join(r3, join(r4, join(r5, join(r6, join(r7, join(r8, join(r9, join(r10, join(r11, join(r12, join(r13, Ok(List::Nil)))))))))))))))
    }

    fn write_param_at(&self, index: usize) -> (result: Result<Option<List<B::Param>>, B::Error>) {
        if index == 0 {
            given(encode_param::<B, T0, V0>(&self.0))
        } else if index == 1 {
            given(encode_param::<B, T1, V1>(&self.1))
        } else if index == 2 {
            given(encode_param::<B, T2, V2>(&self.2))
        } else if index == 3 {
            given(encode_param::<B, T3, V3>(&self.3))
        } else if index == 4 {
            given(encode_param::<B, T4, V4>(&self.4))
        } else if index == 5 {
            given(encode_param::<B, T5, V5>(&self.5))
        } else if index == 6 {
            given(encode_param::<B, T6, V6>(&self.6))
        } else if index == 7 {
            given(encode_param::<B, T7, V7>(&self.7))
        } else if index == 8 {
            given(encode_param::<B, T8, V8>(&self.8))
        } else if index == 9 {
            given(encode_param::<B, T9, V9>(&self.9))
        } else if index == 10 {
            given(encode_param::<B, T10, V10>(&self.10))
        } else if index == 11 {
            given(encode_param::<B, T11, V11>(&self.11))
        } else if index == 12 {
            given(encode_param::<B, T12, V12>(&self.12))
        } else if index == 13 {
            given(encode_param::<B, T13, V13>(&self.13))
        } else {
            Ok(None)
        }
    }
}

impl<
    B: Backend,
    T0: Encode<B>,
    T1: Encode<B>,
    T2: Encode<B>,
    T3: Encode<B>,
    T4: Encode<B>,
    T5: Encode<B>,
    T6: Encode<B>,
    T7: Encode<B>,
    T8: Encode<B>,
    T9: Encode<B>,
    T10: Encode<B>,
    T11: Encode<B>,
    T12: Encode<B>,
    T13: Encode<B>,
    T14: Encode<B>,
    V0: IntoPreparedParam<T0> + Duplicate,
    V1: IntoPreparedParam<T1> + Duplicate,
    V2: IntoPreparedParam<T2> + Duplicate,
    V3: IntoPreparedParam<T3> + Duplicate,
    V4: IntoPreparedParam<T4> + Duplicate,
    V5: IntoPreparedParam<T5> + Duplicate,
    V6: IntoPreparedParam<T6> + Duplicate,
    V7: IntoPreparedParam<T7> + Duplicate,
    V8: IntoPreparedParam<T8> + Duplicate,
    V9: IntoPreparedParam<T9> + Duplicate,
    V10: IntoPreparedParam<T10> + Duplicate,
    V11: IntoPreparedParam<T11> + Duplicate,
    V12: IntoPreparedParam<T12> + Duplicate,
    V13: IntoPreparedParam<T13> + Duplicate,
    V14: IntoPreparedParam<T14> + Duplicate,
> PreparedParamValues<HCons<T0, HCons<T1, HCons<T2, HCons<T3, HCons<T4, HCons<T5, HCons<T6, HCons<T7, HCons<T8, HCons<T9, HCons<T10, HCons<T11, HCons<T12, HCons<T13, HCons<T14, HNil>>>>>>>>>>>>>>>, B> for (V0, V1, V2, V3, V4, V5, V6, V7, V8, V9, V10, V11, V12, V13, V14) {
    open spec fn all_encoded(&self, result: Result<List<B::Param>, B::Error>) -> bool {
        exists|r0: Result<List<B::Param>, B::Error>, r1: Result<List<B::Param>, B::Error>, r2: Result<List<B::Param>, B::Error>, r3: Result<List<B::Param>, B::Error>, r4: Result<List<B::Param>, B::Error>, r5: Result<List<B::Param>, B::Error>, r6: Result<List<B::Param>, B::Error>, r7: Result<List<B::Param>, B::Error>, r8: Result<List<B::Param>, B::Error>, r9: Result<List<B::Param>, B::Error>, r10: Result<List<B::Param>, B::Error>, r11: Result<List<B::Param>, B::Error>, r12: Result<List<B::Param>, B::Error>, r13: Result<List<B::Param>, B::Error>, r14: Result<List<B::Param>, B::Error>|
        {
            &&& #[trigger] crate::params::encodes::<B, T0, V0>(self.0, r0)
            &&& #[trigger] crate::params::encodes::<B, T1, V1>(self.1, r1)
            &&& #[trigger] crate::params::encodes::<B, T2, V2>(self.2, r2)
            &&& #[trigger] crate::params::encodes::<B, T3, V3>(self.3, r3)
            &&& #[trigger] crate::params::encodes::<B, T4, V4>(self.4, r4)
            &&& #[trigger] crate::params::encodes::<B, T5, V5>(self.5, r5)
            &&& #[trigger] crate::params::encodes::<B, T6, V6>(self.6, r6)
            &&& #[trigger] crate::params::encodes::<B, T7, V7>(self.7, r7)
            &&& #[trigger] crate::params::encodes::<B, T8, V8>(self.8, r8)
            &&& #[trigger] crate::params::encodes::<B, T9, V9>(self.9, r9)
            &&& #[trigger] crate::params::encodes::<B, T10, V10>(self.10, r10)
            &&& #[trigger] crate::params::encodes::<B, T11, V11>(self.11, r11)
            &&& #[trigger] crate::params::encodes::<B, T12, V12>(self.12, r12)
            &&& #[trigger] crate::params::encodes::<B, T13, V13>(self.13, r13)
            &&& #[trigger] crate::params::encodes::<B, T14, V14>(self.14, r14)
            &&& result == crate::params::joined(r0, crate::params::joined(r1, crate::params::joined(r2, crate::params::joined(r3, crate::params::joined(r4, crate::params::joined(r5, crate::params::joined(r6, crate::params::joined(r7, crate::params::joined(r8, crate::params::joined(r9, crate::params::joined(r10, crate::params::joined(r11, crate::params::joined(r12, crate::params::joined(r13, crate::params::joined(r14, Ok(List::Nil))))))))))))))))
        }
    }

    open spec fn one_encoded(&self, index: usize, result: Result<Option<List<B::Param>>, B::Error>) -> bool {
            if index == 0 {
                exists|one: Result<List<B::Param>, B::Error>| #[trigger] crate::params::encodes::<B, T0, V0>(self.0, one) && result == crate::params::present(one)
            } else if index == 1 {
                exists|one: Result<List<B::Param>, B::Error>| #[trigger] crate::params::encodes::<B, T1, V1>(self.1, one) && result == crate::params::present(one)
            } else if index == 2 {
                exists|one: Result<List<B::Param>, B::Error>| #[trigger] crate::params::encodes::<B, T2, V2>(self.2, one) && result == crate::params::present(one)
            } else if index == 3 {
                exists|one: Result<List<B::Param>, B::Error>| #[trigger] crate::params::encodes::<B, T3, V3>(self.3, one) && result == crate::params::present(one)
            } else if index == 4 {
                exists|one: Result<List<B::Param>, B::Error>| #[trigger] crate::params::encodes::<B, T4, V4>(self.4, one) && result == crate::params::present(one)
            } else if index == 5 {
                exists|one: Result<List<B::Param>, B::Error>| #[trigger] crate::params::encodes::<B, T5, V5>(self.5, one) && result == crate::params::present(one)
            } else if index == 6 {
                exists|one: Result<List<B::Param>, B::Error>| #[trigger] crate::params::encodes::<B, T6, V6>(self.6, one) && result == crate::params::present(one)
            } else if index == 7 {
                exists|one: Result<List<B::Param>, B::Error>| #[trigger] crate::params::encodes::<B, T7, V7>(self.7, one) && result == crate::params::present(one)
            } else if index == 8 {
                exists|one: Result<List<B::Param>, B::Error>| #[trigger] crate::params::encodes::<B, T8, V8>(self.8, one) && result == crate::params::present(one)
            } else if index == 9 {
                exists|one: Result<List<B::Param>, B::Error>| #[trigger] crate::params::encodes::<B, T9, V9>(self.9, one) && result == crate::params::present(one)
            } else if index == 10 {
                exists|one: Result<List<B::Param>, B::Error>| #[trigger] crate::params::encodes::<B, T10, V10>(self.10, one) && result == crate::params::present(one)
            } else if index == 11 {
                exists|one: Result<List<B::Param>, B::Error>| #[trigger] crate::params::encodes::<B, T11, V11>(self.11, one) && result == crate::params::present(one)
            } else if index == 12 {
                exists|one: Result<List<B::Param>, B::Error>| #[trigger] crate::params::encodes::<B, T12, V12>(self.12, one) && result == crate::params::present(one)
            } else if index == 13 {
                exists|one: Result<List<B::Param>, B::Error>| #[trigger] crate::params::encodes::<B, T13, V13>(self.13, one) && result == crate::params::present(one)
            } else if index == 14 {
                exists|one: Result<List<B::Param>, B::Error>| #[trigger] crate::params::encodes::<B, T14, V14>(self.14, one) && result == crate::params::present(one)
            } else {
                result == Ok::<Option<List<B::Param>>, B::Error>(None)
            }
    }

    fn write_params(&self) -> (result: Result<List<B::Param>, B::Error>) {
        let r0 = encode_param::<B, T0, V0>(&self.0);
        let r1 = encode_param::<B, T1, V1>(&self.1);
        let r2 = encode_param::<B, T2, V2>(&self.2);
        let r3 = encode_param::<B, T3, V3>(&self.3);
        let r4 = encode_param::<B, T4, V4>(&self.4);
        let r5 = encode_param::<B, T5, V5>(&self.5);
        let r6 = encode_param::<B, T6, V6>(&self.6);
        let r7 = encode_param::<B, T7, V7>(&self.7);
        let r8 = encode_param::<B, T8, V8>(&self.8);
        let r9 = encode_param::<B, T9, V9>(&self.9);
        let r10 = encode_param::<B, T10, V10>(&self.10);
        let r11 = encode_param::<B, T11, V11>(&self.11);
        let r12 = encode_param::<B, T12, V12>(&self.12);
        let r13 = encode_param::<B, T13, V13>(&self.13);
        let r14 = encode_param::<B, T14, V14>(&self.14);
        join(r0, join(r1, join(r2, join(r3, join(r4, join(r5, join(r6, join(r7, join(r8, join(r9, join(r10, join(r11, join(r12, join(r13, join(r14, Ok(List::Nil))))))))))))))))
    }

    fn write_param_at(&self, index: usize) -> (result: Result<Option<List<B::Param>>, B::Error>) {
        if index == 0 {
            given(encode_param::<B, T0, V0>(&self.0))
        } else if index == 1 {
            given(encode_param::<B, T1, V1>(&self.1))
        } else if index == 2 {
            given(encode_param::<B, T2, V2>(&self.2))
        } else if index == 3 {
            given(encode_param::<B, T3, V3>(&self.3))
        } else if index == 4 {
            given(encode_param::<B, T4, V4>(&self.4))
        } else if index == 5 {
            given(encode_param::<B, T5, V5>(&self.5))
        } else if index == 6 {
            given(encode_param::<B, T6, V6>(&self.6))
        } else if index == 7 {
            given(encode_param::<B, T7, V7>(&self.7))
        } else if index == 8 {
            given(encode_param::<B, T8, V8>(&self.8))
        } else if index == 9 {
            given(encode_param::<B, T9, V9>(&self.9))
        } else if index == 10 {
            given(encode_param::<B, T10, V10>(&self.10))
        } else if index == 11 {
            given(encode_param::<B, T11, V11>(&self.11))
        } else if index == 12 {
            given(encode_param::<B, T12, V12>(&self.12))
        } else if index == 13 {
            given(encode_param::<B, T13, V13>(&self.13))
        } else if index == 14 {
            given(encode_param::<B, T14, V14>(&self.14))
        } else {
            Ok(None)
        }
    }
}

impl<
    B: Backend,
    T0: Encode<B>,
    T1: Encode<B>,
    T2: Encode<B>,
    T3: Encode<B>,
    T4: Encode<B>,
    T5: Encode<B>,
    T6: Encode<B>,
    T7: Encode<B>,
    T8: Encode<B>,
    T9: Encode<B>,
    T10: Encode<B>,
    T11: Encode<B>,
    T12: Encode<B>,
    T13: Encode<B>,
    T14: Encode<B>,
    T15: Encode<B>,
    V0: IntoPreparedParam<T0> + Duplicate,
    V1: IntoPreparedParam<T1> + Duplicate,
    V2: IntoPreparedParam<T2> + Duplicate,
    V3: IntoPreparedParam<T3> + Duplicate,
    V4: IntoPreparedParam<T4> + Duplicate,
    V5: IntoPreparedParam<T5> + Duplicate,
    V6: IntoPreparedParam<T6> + Duplicate,
    V7: IntoPreparedParam<T7> + Duplicate,
    V8: IntoPreparedParam<T8> + Duplicate,
    V9: IntoPreparedParam<T9> + Duplicate,
    V10: IntoPreparedParam<T10> + Duplicate,
    V11: IntoPreparedParam<T11> + Duplicate,
    V12: IntoPreparedParam<T12> + Duplicate,
    V13: IntoPreparedParam<T13> + Duplicate,
    V14: IntoPreparedParam<T14> + Duplicate,
    V15: IntoPreparedParam<T15> + Duplicate,
> PreparedParamValues<HCons<T0, HCons<T1, HCons<T2, HCons<T3, HCons<T4, HCons<T5, HCons<T6, HCons<T7, HCons<T8, HCons<T9, HCons<T10, HCons<T11, HCons<T12, HCons<T13, HCons<T14, HCons<T15, HNil>>>>>>>>>>>>>>>>, B> for (V0, V1, V2, V3, V4, V5, V6, V7, V8, V9, V10, V11, V12, V13, V14, V15) {
    open spec fn all_encoded(&self, result: Result<List<B::Param>, B::Error>) -> bool {
        exists|r0: Result<List<B::Param>, B::Error>, r1: Result<List<B::Param>, B::Error>, r2: Result<List<B::Param>, B::Error>, r3: Result<List<B::Param>, B::Error>, r4: Result<List<B::Param>, B::Error>, r5: Result<List<B::Param>, B::Error>, r6: Result<List<B::Param>, B::Error>, r7: Result<List<B::Param>, B::Error>, r8: Result<List<B::Param>, B::Error>, r9: Result<List<B::Param>, B::Error>, r10: Result<List<B::Param>, B::Error>, r11: Result<List<B::Param>, B::Error>, r12: Result<List<B::Param>, B::Error>, r13: Result<List<B::Param>, B::Error>, r14: Result<List<B::Param>, B::Error>, r15: Result<List<B::Param>, B::Error>|
        {
            &&& #[trigger] crate::params::encodes::<B, T0, V0>(self.0, r0)
            &&& #[trigger] crate::params::encodes::<B, T1, V1>(self.1, r1)
            &&& #[trigger] crate::params::encodes::<B, T2, V2>(self.2, r2)
            &&& #[trigger] crate::params::encodes::<B, T3, V3>(self.3, r3)
            &&& #[trigger] crate::params::encodes::<B, T4, V4>(self.4, r4)
            &&& #[trigger] crate::params::encodes::<B, T5, V5>(self.5, r5)
            &&& #[trigger] crate::params::encodes::<B, T6, V6>(self.6, r6)
            &&& #[trigger] crate::params::encodes::<B, T7, V7>(self.7, r7)
            &&& #[trigger] crate::params::encodes::<B, T8, V8>(self.8, r8)
            &&& #[trigger] crate::params::encodes::<B, T9, V9>(self.9, r9)
            &&& #[trigger] crate::params::encodes::<B, T10, V10>(self.10, r10)
            &&& #[trigger] crate::params::encodes::<B, T11, V11>(self.11, r11)
            &&& #[trigger] crate::params::encodes::<B, T12, V12>(self.12, r12)
            &&& #[trigger] crate::params::encodes::<B, T13, V13>(self.13, r13)
            &&& #[trigger] crate::params::encodes::<B, T14, V14>(self.14, r14)
            &&& #[trigger] crate::params::encodes::<B, T15, V15>(self.15, r15)
            &&& result == crate::params::joined(r0, crate::params::joined(r1, crate::params::joined(r2, crate::params::joined(r3, crate::params::joined(r4, crate::params::joined(r5, crate::params::joined(r6, crate::params::joined(r7, crate::params::joined(r8, crate::params::joined(r9, crate::params::joined(r10, crate::params::joined(r11, crate::params::joined(r12, crate::params::joined(r13, crate::params::joined(r14, crate::params::joined(r15, Ok(List::Nil)))))))))))))))))
        }
    }

    open spec fn one_encoded(&self, index: usize, result: Result<Option<List<B::Param>>, B::Error>) -> bool {
            if index == 0 {
                exists|one: Result<List<B::Param>, B::Error>| #[trigger] crate::params::encodes::<B, T0, V0>(self.0, one) && result == crate::params::present(one)
            } else if index == 1 {
                exists|one: Result<List<B::Param>, B::Error>| #[trigger] crate::params::encodes::<B, T1, V1>(self.1, one) && result == crate::params::present(one)
            } else if index == 2 {
                exists|one: Result<List<B::Param>, B::Error>| #[trigger] crate::params::encodes::<B, T2, V2>(self.2, one) && result == crate::params::present(one)
            } else if index == 3 {
                exists|one: Result<List<B::Param>, B::Error>| #[trigger] crate::params::encodes::<B, T3, V3>(self.3, one) && result == crate::params::present(one)
            } else if index == 4 {
                exists|one: Result<List<B::Param>, B::Error>| #[trigger] crate::params::encodes::<B, T4, V4>(self.4, one) && result == crate::params::present(one)
            } else if index == 5 {
                exists|one: Result<List<B::Param>, B::Error>| #[trigger] crate::params::encodes::<B, T5, V5>(self.5, one) && result == crate::params::present(one)
            } else if index == 6 {
                exists|one: Result<List<B::Param>, B::Error>| #[trigger] crate::params::encodes::<B, T6, V6>(self.6, one) && result == crate::params::present(one)
            } else if index == 7 {
                exists|one: Result<List<B::Param>, B::Error>| #[trigger] crate::params::encodes::<B, T7, V7>(self.7, one) && result == crate::params::present(one)
            } else if index == 8 {
                exists|one: Result<List<B::Param>, B::Error>| #[trigger] crate::params::encodes::<B, T8, V8>(self.8, one) && result == crate::params::present(one)
            } else if index == 9 {
                exists|one: Result<List<B::Param>, B::Error>| #[trigger] crate::params::encodes::<B, T9, V9>(self.9, one) && result == crate::params::present(one)
            } else if index == 10 {
                exists|one: Result<List<B::Param>, B::Error>| #[trigger] crate::params::encodes::<B, T10, V10>(self.10, one) && result == crate::params::present(one)
            } else if index == 11 {
                exists|one: Result<List<B::Param>, B::Error>| #[trigger] crate::params::encodes::<B, T11, V11>(self.11, one) && result == crate::params::present(one)
            } else if index == 12 {
                exists|one: Result<List<B::Param>, B::Error>| #[trigger] crate::params::encodes::<B, T12, V12>(self.12, one) && result == crate::params::present(one)
            } else if index == 13 {
                exists|one: Result<List<B::Param>, B::Error>| #[trigger] crate::params::encodes::<B, T13, V13>(self.13, one) && result == crate::params::present(one)
            } else if index == 14 {
                exists|one: Result<List<B::Param>, B::Error>| #[trigger] crate::params::encodes::<B, T14, V14>(self.14, one) && result == crate::params::present(one)
            } else if index == 15 {
                exists|one: Result<List<B::Param>, B::Error>| #[trigger] crate::params::encodes::<B, T15, V15>(self.15, one) && result == crate::params::present(one)
            } else {
                result == Ok::<Option<List<B::Param>>, B::Error>(None)
            }
    }

    fn write_params(&self) -> (result: Result<List<B::Param>, B::Error>) {
        let r0 = encode_param::<B, T0, V0>(&self.0);
        let r1 = encode_param::<B, T1, V1>(&self.1);
        let r2 = encode_param::<B, T2, V2>(&self.2);
        let r3 = encode_param::<B, T3, V3>(&self.3);
        let r4 = encode_param::<B, T4, V4>(&self.4);
        let r5 = encode_param::<B, T5, V5>(&self.5);
        let r6 = encode_param::<B, T6, V6>(&self.6);
        let r7 = encode_param::<B, T7, V7>(&self.7);
        let r8 = encode_param::<B, T8, V8>(&self.8);
        let r9 = encode_param::<B, T9, V9>(&self.9);
        let r10 = encode_param::<B, T10, V10>(&self.10);
        let r11 = encode_param::<B, T11, V11>(&self.11);
        let r12 = encode_param::<B, T12, V12>(&self.12);
        let r13 = encode_param::<B, T13, V13>(&self.13);
        let r14 = encode_param::<B, T14, V14>(&self.14);
        let r15 = encode_param::<B, T15, V15>(&self.15);
        join(r0, join(r1, join(r2, join(r3, join(r4, join(r5, join(r6, join(r7, join(r8, join(r9, join(r10, join(r11, join(r12, join(r13, join(r14, join(r15, Ok(List::Nil)))))))))))))))))
    }

    fn write_param_at(&self, index: usize) -> (result: Result<Option<List<B::Param>>, B::Error>) {
        if index == 0 {
            given(encode_param::<B, T0, V0>(&self.0))
        } else if index == 1 {
            given(encode_param::<B, T1, V1>(&self.1))
        } else if index == 2 {
            given(encode_param::<B, T2, V2>(&self.2))
        } else if index == 3 {
            given(encode_param::<B, T3, V3>(&self.3))
        } else if index == 4 {
            given(encode_param::<B, T4, V4>(&self.4))
        } else if index == 5 {
            given(encode_param::<B, T5, V5>(&self.5))
        } else if index == 6 {
            given(encode_param::<B, T6, V6>(&self.6))
        } else if index == 7 {
            given(encode_param::<B, T7, V7>(&self.7))
        } else if index == 8 {
            given(encode_param::<B, T8, V8>(&self.8))
        } else if index == 9 {
            given(encode_param::<B, T9, V9>(&self.9))
        } else if index == 10 {
            given(encode_param::<B, T10, V10>(&self.10))
        } else if index == 11 {
            given(encode_param::<B, T11, V11>(&self.11))
        } else if index == 12 {
            given(encode_param::<B, T12, V12>(&self.12))
        } else if index == 13 {
            given(encode_param::<B, T13, V13>(&self.13))
        } else if index == 14 {
            given(encode_param::<B, T14, V14>(&self.14))
        } else if index == 15 {
            given(encode_param::<B, T15, V15>(&self.15))
        } else {
            Ok(None)
        }
    }
}

impl<
    B: Backend,
    T0, T1, T2, T3, T4, T5, T6, T7, T8, T9, T10, T11, T12, T13, T14, T15, T16,
    V0: Duplicate, V1: Duplicate, V2: Duplicate, V3: Duplicate, V4: Duplicate, V5: Duplicate, V6: Duplicate, V7: Duplicate, V8: Duplicate, V9: Duplicate, V10: Duplicate, V11: Duplicate, V12: Duplicate, V13: Duplicate, V14: Duplicate, V15: Duplicate, V16: Duplicate,
> PreparedParamValues<HCons<T0, HCons<T1, HCons<T2, HCons<T3, HCons<T4, HCons<T5, HCons<T6, HCons<T7, HCons<T8, HCons<T9, HCons<T10, HCons<T11, HCons<T12, HCons<T13, HCons<T14, HCons<T15, HCons<T16, HNil>>>>>>>>>>>>>>>>>, B> for (V0, V1, V2, V3, V4, V5, V6, V7, V8, V9, V10, V11, V12, V13, V14, V15, V16) where
    (V0, V1, V2, V3, V4, V5, V6, V7, V8, V9, V10, V11, V12, V13, V14, V15): PreparedParamValues<HCons<T0, HCons<T1, HCons<T2, HCons<T3, HCons<T4, HCons<T5, HCons<T6, HCons<T7, HCons<T8, HCons<T9, HCons<T10, HCons<T11, HCons<T12, HCons<T13, HCons<T14, HCons<T15, HNil>>>>>>>>>>>>>>>>, B>,
    (V16,): PreparedParamValues<HCons<T16, HNil>, B>,
 {
    open spec fn all_encoded(&self, result: Result<List<B::Param>, B::Error>) -> bool {
        let front = (self.0, self.1, self.2, self.3, self.4, self.5, self.6, self.7, self.8, self.9, self.10, self.11, self.12, self.13, self.14, self.15);
        let back = (self.16,);
        exists|first: Result<List<B::Param>, B::Error>, rest: Result<List<B::Param>, B::Error>|
            {
                &&& #[trigger] <(V0, V1, V2, V3, V4, V5, V6, V7, V8, V9, V10, V11, V12, V13, V14, V15) as PreparedParamValues<HCons<T0, HCons<T1, HCons<T2, HCons<T3, HCons<T4, HCons<T5, HCons<T6, HCons<T7, HCons<T8, HCons<T9, HCons<T10, HCons<T11, HCons<T12, HCons<T13, HCons<T14, HCons<T15, HNil>>>>>>>>>>>>>>>>, B>>::all_encoded(&front, first)
                &&& #[trigger] <(V16,) as PreparedParamValues<HCons<T16, HNil>, B>>::all_encoded(&back, rest)
                &&& result == crate::params::joined(first, rest)
            }
    }

    open spec fn one_encoded(&self, index: usize, result: Result<Option<List<B::Param>>, B::Error>) -> bool {
        let front = (self.0, self.1, self.2, self.3, self.4, self.5, self.6, self.7, self.8, self.9, self.10, self.11, self.12, self.13, self.14, self.15);
        let back = (self.16,);
        if index < 16 {
            <(V0, V1, V2, V3, V4, V5, V6, V7, V8, V9, V10, V11, V12, V13, V14, V15) as PreparedParamValues<HCons<T0, HCons<T1, HCons<T2, HCons<T3, HCons<T4, HCons<T5, HCons<T6, HCons<T7, HCons<T8, HCons<T9, HCons<T10, HCons<T11, HCons<T12, HCons<T13, HCons<T14, HCons<T15, HNil>>>>>>>>>>>>>>>>, B>>::one_encoded(&front, index, result)
        } else {
            <(V16,) as PreparedParamValues<HCons<T16, HNil>, B>>::one_encoded(&back, (index - 16) as usize, result)
        }
    }

    fn write_params(&self) -> (result: Result<List<B::Param>, B::Error>) {
        let front = (self.0.duplicate(), self.1.duplicate(), self.2.duplicate(), self.3.duplicate(), self.4.duplicate(), self.5.duplicate(), self.6.duplicate(), self.7.duplicate(), self.8.duplicate(), self.9.duplicate(), self.10.duplicate(), self.11.duplicate(), self.12.duplicate(), self.13.duplicate(), self.14.duplicate(), self.15.duplicate());
        let back = (self.16.duplicate(),);
        let first = <(V0, V1, V2, V3, V4, V5, V6, V7, V8, V9, V10, V11, V12, V13, V14, V15) as PreparedParamValues<HCons<T0, HCons<T1, HCons<T2, HCons<T3, HCons<T4, HCons<T5, HCons<T6, HCons<T7, HCons<T8, HCons<T9, HCons<T10, HCons<T11, HCons<T12, HCons<T13, HCons<T14, HCons<T15, HNil>>>>>>>>>>>>>>>>, B>>::write_params(&front);
        let rest = <(V16,) as PreparedParamValues<HCons<T16, HNil>, B>>::write_params(&back);
        join(first, rest)
    }

    fn write_param_at(&self, index: usize) -> (result: Result<Option<List<B::Param>>, B::Error>) {
        if index < 16 {
            let front = (self.0.duplicate(), self.1.duplicate(), self.2.duplicate(), self.3.duplicate(), self.4.duplicate(), self.5.duplicate(), self.6.duplicate(), self.7.duplicate(), self.8.duplicate(), self.9.duplicate(), self.10.duplicate(), self.11.duplicate(), self.12.duplicate(), self.13.duplicate(), self.14.duplicate(), self.15.duplicate());
            <(V0, V1, V2, V3, V4, V5, V6, V7, V8, V9, V10, V11, V12, V13, V14, V15) as PreparedParamValues<HCons<T0, HCons<T1, HCons<T2, HCons<T3, HCons<T4, HCons<T5, HCons<T6, HCons<T7, HCons<T8, HCons<T9, HCons<T10, HCons<T11, HCons<T12, HCons<T13, HCons<T14, HCons<T15, HNil>>>>>>>>>>>>>>>>, B>>::write_param_at(&front, index)
        } else {
            let back = (self.16.duplicate(),);
            <(V16,) as PreparedParamValues<HCons<T16, HNil>, B>>::write_param_at(&back, index - 16)
        }
    }
}

impl<
    B: Backend,
    T0, T1, T2, T3, T4, T5, T6, T7, T8, T9, T10, T11, T12, T13, T14, T15, T16, T17,
    V0: Duplicate, V1: Duplicate, V2: Duplicate, V3: Duplicate, V4: Duplicate, V5: Duplicate, V6: Duplicate, V7: Duplicate, V8: Duplicate, V9: Duplicate, V10: Duplicate, V11: Duplicate, V12: Duplicate, V13: Duplicate, V14: Duplicate, V15: Duplicate, V16: Duplicate, V17: Duplicate,
> PreparedParamValues<HCons<T0, HCons<T1, HCons<T2, HCons<T3, HCons<T4, HCons<T5, HCons<T6, HCons<T7, HCons<T8, HCons<T9, HCons<T10, HCons<T11, HCons<T12, HCons<T13, HCons<T14, HCons<T15, HCons<T16, HCons<T17, HNil>>>>>>>>>>>>>>>>>>, B> for (V0, V1, V2, V3, V4, V5, V6, V7, V8, V9, V10, V11, V12, V13, V14, V15, V16, V17) where
    (V0, V1, V2, V3, V4, V5, V6, V7, V8, V9, V10, V11, V12, V13, V14, V15): PreparedParamValues<HCons<T0, HCons<T1, HCons<T2, HCons<T3, HCons<T4, HCons<T5, HCons<T6, HCons<T7, HCons<T8, HCons<T9, HCons<T10, HCons<T11, HCons<T12, HCons<T13, HCons<T14, HCons<T15, HNil>>>>>>>>>>>>>>>>, B>,
    (V16, V17): PreparedParamValues<HCons<T16, HCons<T17, HNil>>, B>,
 {
    open spec fn all_encoded(&self, result: Result<List<B::Param>, B::Error>) -> bool {
        let front = (self.0, self.1, self.2, self.3, self.4, self.5, self.6, self.7, self.8, self.9, self.10, self.11, self.12, self.13, self.14, self.15);
        let back = (self.16, self.17);
        exists|first: Result<List<B::Param>, B::Error>, rest: Result<List<B::Param>, B::Error>|
            {
                &&& #[trigger] <(V0, V1, V2, V3, V4, V5, V6, V7, V8, V9, V10, V11, V12, V13, V14, V15) as PreparedParamValues<HCons<T0, HCons<T1, HCons<T2, HCons<T3, HCons<T4, HCons<T5, HCons<T6, HCons<T7, HCons<T8, HCons<T9, HCons<T10, HCons<T11, HCons<T12, HCons<T13, HCons<T14, HCons<T15, HNil>>>>>>>>>>>>>>>>, B>>::all_encoded(&front, first)
                &&& #[trigger] <(V16, V17) as PreparedParamValues<HCons<T16, HCons<T17, HNil>>, B>>::all_encoded(&back, rest)
                &&& result == crate::params::joined(first, rest)
            }
    }

    open spec fn one_encoded(&self, index: usize, result: Result<Option<List<B::Param>>, B::Error>) -> bool {
        let front = (self.0, self.1, self.2, self.3, self.4, self.5, self.6, self.7, self.8, self.9, self.10, self.11, self.12, self.13, self.14, self.15);
        let back = (self.16, self.17);
        if index < 16 {
            <(V0, V1, V2, V3, V4, V5, V6, V7, V8, V9, V10, V11, V12, V13, V14, V15) as PreparedParamValues<HCons<T0, HCons<T1, HCons<T2, HCons<T3, HCons<T4, HCons<T5, HCons<T6, HCons<T7, HCons<T8, HCons<T9, HCons<T10, HCons<T11, HCons<T12, HCons<T13, HCons<T14, HCons<T15, HNil>>>>>>>>>>>>>>>>, B>>::one_encoded(&front, index, result)
        } else {
            <(V16, V17) as PreparedParamValues<HCons<T16, HCons<T17, HNil>>, B>>::one_encoded(&back, (index - 16) as usize, result)
        }
    }

    fn write_params(&self) -> (result: Result<List<B::Param>, B::Error>) {
        let front = (self.0.duplicate(), self.1.duplicate(), self.2.duplicate(), self.3.duplicate(), self.4.duplicate(), self.5.duplicate(), self.6.duplicate(), self.7.duplicate(), self.8.duplicate(), self.9.duplicate(), self.10.duplicate(), self.11.duplicate(), self.12.duplicate(), self.13.duplicate(), self.14.duplicate(), self.15.duplicate());
        let back = (self.16.duplicate(), self.17.duplicate());
        let first = <(V0, V1, V2, V3, V4, V5, V6, V7, V8, V9, V10, V11, V12, V13, V14, V15) as PreparedParamValues<HCons<T0, HCons<T1, HCons<T2, HCons<T3, HCons<T4, HCons<T5, HCons<T6, HCons<T7, HCons<T8, HCons<T9, HCons<T10, HCons<T11, HCons<T12, HCons<T13, HCons<T14, HCons<T15, HNil>>>>>>>>>>>>>>>>, B>>::write_params(&front);
        let rest = <(V16, V17) as PreparedParamValues<HCons<T16, HCons<T17, HNil>>, B>>::write_params(&back);
        join(first, rest)
    }

    fn write_param_at(&self, index: usize) -> (result: Result<Option<List<B::Param>>, B::Error>) {
        if index < 16 {
            let front = (self.0.duplicate(), self.1.duplicate(), self.2.duplicate(), self.3.duplicate(), self.4.duplicate(), self.5.duplicate(), self.6.duplicate(), self.7.duplicate(), self.8.duplicate(), self.9.duplicate(), self.10.duplicate(), self.11.duplicate(), self.12.duplicate(), self.13.duplicate(), self.14.duplicate(), self.15.duplicate());
            <(V0, V1, V2, V3, V4, V5, V6, V7, V8, V9, V10, V11, V12, V13, V14, V15) as PreparedParamValues<HCons<T0, HCons<T1, HCons<T2, HCons<T3, HCons<T4, HCons<T5, HCons<T6, HCons<T7, HCons<T8, HCons<T9, HCons<T10, HCons<T11, HCons<T12, HCons<T13, HCons<T14, HCons<T15, HNil>>>>>>>>>>>>>>>>, B>>::write_param_at(&front, index)
        } else {
            let back = (self.16.duplicate(), self.17.duplicate());
            <(V16, V17) as PreparedParamValues<HCons<T16, HCons<T17, HNil>>, B>>::write_param_at(&back, index - 16)
        }
    }
}

impl<
    B: Backend,
    T0, T1, T2, T3, T4, T5, T6, T7, T8, T9, T10, T11, T12, T13, T14, T15, T16, T17, T18,
    V0: Duplicate, V1: Duplicate, V2: Duplicate, V3: Duplicate, V4: Duplicate, V5: Duplicate, V6: Duplicate, V7: Duplicate, V8: Duplicate, V9: Duplicate, V10: Duplicate, V11: Duplicate, V12: Duplicate, V13: Duplicate, V14: Duplicate, V15: Duplicate, V16: Duplicate, V17: Duplicate, V18: Duplicate,
> PreparedParamValues<HCons<T0, HCons<T1, HCons<T2, HCons<T3, HCons<T4, HCons<T5, HCons<T6, HCons<T7, HCons<T8, HCons<T9, HCons<T10, HCons<T11, HCons<T12, HCons<T13, HCons<T14, HCons<T15, HCons<T16, HCons<T17, HCons<T18, HNil>>>>>>>>>>>>>>>>>>>, B> for (V0, V1, V2, V3, V4, V5, V6, V7, V8, V9, V10, V11, V12, V13, V14, V15, V16, V17, V18) where
    (V0, V1, V2, V3, V4, V5, V6, V7, V8, V9, V10, V11, V12, V13, V14, V15): PreparedParamValues<HCons<T0, HCons<T1, HCons<T2, HCons<T3, HCons<T4, HCons<T5, HCons<T6, HCons<T7, HCons<T8, HCons<T9, HCons<T10, HCons<T11, HCons<T12, HCons<T13, HCons<T14, HCons<T15, HNil>>>>>>>>>>>>>>>>, B>,
    (V16, V17, V18): PreparedParamValues<HCons<T16, HCons<T17, HCons<T18, HNil>>>, B>,
 {
    open spec fn all_encoded(&self, result: Result<List<B::Param>, B::Error>) -> bool {
        let front = (self.0, self.1, self.2, self.3, self.4, self.5, self.6, self.7, self.8, self.9, self.10, self.11, self.12, self.13, self.14, self.15);
        let back = (self.16, self.17, self.18);
        exists|first: Result<List<B::Param>, B::Error>, rest: Result<List<B::Param>, B::Error>|
            {
                &&& #[trigger] <(V0, V1, V2, V3, V4, V5, V6, V7, V8, V9, V10, V11, V12, V13, V14, V15) as PreparedParamValues<HCons<T0, HCons<T1, HCons<T2, HCons<T3, HCons<T4, HCons<T5, HCons<T6, HCons<T7, HCons<T8, HCons<T9, HCons<T10, HCons<T11, HCons<T12, HCons<T13, HCons<T14, HCons<T15, HNil>>>>>>>>>>>>>>>>, B>>::all_encoded(&front, first)
                &&& #[trigger] <(V16, V17, V18) as PreparedParamValues<HCons<T16, HCons<T17, HCons<T18, HNil>>>, B>>::all_encoded(&back, rest)
                &&& result == crate::params::joined(first, rest)
            }
    }

    open spec fn one_encoded(&self, index: usize, result: Result<Option<List<B::Param>>, B::Error>) -> bool {
        let front = (self.0, self.1, self.2, self.3, self.4, self.5, self.6, self.7, self.8, self.9, self.10, self.11, self.12, self.13, self.14, self.15);
        let back = (self.16, self.17, self.18);
        if index < 16 {
            <(V0, V1, V2, V3, V4, V5, V6, V7, V8, V9, V10, V11, V12, V13, V14, V15) as PreparedParamValues<HCons<T0, HCons<T1, HCons<T2, HCons<T3, HCons<T4, HCons<T5, HCons<T6, HCons<T7, HCons<T8, HCons<T9, HCons<T10, HCons<T11, HCons<T12, HCons<T13, HCons<T14, HCons<T15, HNil>>>>>>>>>>>>>>>>, B>>::one_encoded(&front, index, result)
        } else {
            <(V16, V17, V18) as PreparedParamValues<HCons<T16, HCons<T17, HCons<T18, HNil>>>, B>>::one_encoded(&back, (index - 16) as usize, result)
        }
    }

    fn write_params(&self) -> (result: Result<List<B::Param>, B::Error>) {
        let front = (self.0.duplicate(), self.1.duplicate(), self.2.duplicate(), self.3.duplicate(), self.4.duplicate(), self.5.duplicate(), self.6.duplicate(), self.7.duplicate(), self.8.duplicate(), self.9.duplicate(), self.10.duplicate(), self.11.duplicate(), self.12.duplicate(), self.13.duplicate(), self.14.duplicate(), self.15.duplicate());
        let back = (self.16.duplicate(), self.17.duplicate(), self.18.duplicate());
        let first = <(V0, V1, V2, V3, V4, V5, V6, V7, V8, V9, V10, V11, V12, V13, V14, V15) as PreparedParamValues<HCons<T0, HCons<T1, HCons<T2, HCons<T3, HCons<T4, HCons<T5, HCons<T6, HCons<T7, HCons<T8, HCons<T9, HCons<T10, HCons<T11, HCons<T12, HCons<T13, HCons<T14, HCons<T15, HNil>>>>>>>>>>>>>>>>, B>>::write_params(&front);
        let rest = <(V16, V17, V18) as PreparedParamValues<HCons<T16, HCons<T17, HCons<T18, HNil>>>, B>>::write_params(&back);
        join(first, rest)
    }

    fn write_param_at(&self, index: usize) -> (result: Result<Option<List<B::Param>>, B::Error>) {
        if index < 16 {
            let front = (self.0.duplicate(), self.1.duplicate(), self.2.duplicate(), self.3.duplicate(), self.4.duplicate(), self.5.duplicate(), self.6.duplicate(), self.7.duplicate(), self.8.duplicate(), self.9.duplicate(), self.10.duplicate(), self.11.duplicate(), self.12.duplicate(), self.13.duplicate(), self.14.duplicate(), self.15.duplicate());
            <(V0, V1, V2, V3, V4, V5, V6, V7, V8, V9, V10, V11, V12, V13, V14, V15) as PreparedParamValues<HCons<T0, HCons<T1, HCons<T2, HCons<T3, HCons<T4, HCons<T5, HCons<T6, HCons<T7, HCons<T8, HCons<T9, HCons<T10, HCons<T11, HCons<T12, HCons<T13, HCons<T14, HCons<T15, HNil>>>>>>>>>>>>>>>>, B>>::write_param_at(&front, index)
        } else {
            let back = (self.16.duplicate(), self.17.duplicate(), self.18.duplicate());
            <(V16, V17, V18) as PreparedParamValues<HCons<T16, HCons<T17, HCons<T18, HNil>>>, B>>::write_param_at(&back, index - 16)
        }
    }
}

impl<
    B: Backend,
    T0, T1, T2, T3, T4, T5, T6, T7, T8, T9, T10, T11, T12, T13, T14, T15, T16, T17, T18, T19,
    V0: Duplicate, V1: Duplicate, V2: Duplicate, V3: Duplicate, V4: Duplicate, V5: Duplicate, V6: Duplicate, V7: Duplicate, V8: Duplicate, V9: Duplicate, V10: Duplicate, V11: Duplicate, V12: Duplicate, V13: Duplicate, V14: Duplicate, V15: Duplicate, V16: Duplicate, V17: Duplicate, V18: Duplicate, V19: Duplicate,
> PreparedParamValues<HCons<T0, HCons<T1, HCons<T2, HCons<T3, HCons<T4, HCons<T5, HCons<T6, HCons<T7, HCons<T8, HCons<T9, HCons<T10, HCons<T11, HCons<T12, HCons<T13, HCons<T14, HCons<T15, HCons<T16, HCons<T17, HCons<T18, HCons<T19, HNil>>>>>>>>>>>>>>>>>>>>, B> for (V0, V1, V2, V3, V4, V5, V6, V7, V8, V9, V10, V11, V12, V13, V14, V15, V16, V17, V18, V19) where
    (V0, V1, V2, V3, V4, V5, V6, V7, V8, V9, V10, V11, V12, V13, V14, V15): PreparedParamValues<HCons<T0, HCons<T1, HCons<T2, HCons<T3, HCons<T4, HCons<T5, HCons<T6, HCons<T7, HCons<T8, HCons<T9, HCons<T10, HCons<T11, HCons<T12, HCons<T13, HCons<T14, HCons<T15, HNil>>>>>>>>>>>>>>>>, B>,
    (V16, V17, V18, V19): PreparedParamValues<HCons<T16, HCons<T17, HCons<T18, HCons<T19, HNil>>>>, B>,
 {
    open spec fn all_encoded(&self, result: Result<List<B::Param>, B::Error>) -> bool {
        let front = (self.0, self.1, self.2, self.3, self.4, self.5, self.6, self.7, self.8, self.9, self.10, self.11, self.12, self.13, self.14, self.15);
        let back = (self.16, self.17, self.18, self.19);
        exists|first: Result<List<B::Param>, B::Error>, rest: Result<List<B::Param>, B::Error>|
            {
                &&& #[trigger] <(V0, V1, V2, V3, V4, V5, V6, V7, V8, V9, V10, V11, V12, V13, V14, V15) as PreparedParamValues<HCons<T0, HCons<T1, HCons<T2, HCons<T3, HCons<T4, HCons<T5, HCons<T6, HCons<T7, HCons<T8, HCons<T9, HCons<T10, HCons<T11, HCons<T12, HCons<T13, HCons<T14, HCons<T15, HNil>>>>>>>>>>>>>>>>, B>>::all_encoded(&front, first)
                &&& #[trigger] <(V16, V17, V18, V19) as PreparedParamValues<HCons<T16, HCons<T17, HCons<T18, HCons<T19, HNil>>>>, B>>::all_encoded(&back, rest)
                &&& result == crate::params::joined(first, rest)
            }
    }

    open spec fn one_encoded(&self, index: usize, result: Result<Option<List<B::Param>>, B::Error>) -> bool {
        let front = (self.0, self.1, self.2, self.3, self.4, self.5, self.6, self.7, self.8, self.9, self.10, self.11, self.12, self.13, self.14, self.15);
        let back = (self.16, self.17, self.18, self.19);
        if index < 16 {
            <(V0, V1, V2, V3, V4, V5, V6, V7, V8, V9, V10, V11, V12, V13, V14, V15) as PreparedParamValues<HCons<T0, HCons<T1, HCons<T2, HCons<T3, HCons<T4, HCons<T5, HCons<T6, HCons<T7, HCons<T8, HCons<T9, HCons<T10, HCons<T11, HCons<T12, HCons<T13, HCons<T14, HCons<T15, HNil>>>>>>>>>>>>>>>>, B>>::one_encoded(&front, index, result)
        } else {
            <(V16, V17, V18, V19) as PreparedParamValues<HCons<T16, HCons<T17, HCons<T18, HCons<T19, HNil>>>>, B>>::one_encoded(&back, (index - 16) as usize, result)
        }
    }

    fn write_params(&self) -> (result: Result<List<B::Param>, B::Error>) {
        let front = (self.0.duplicate(), self.1.duplicate(), self.2.duplicate(), self.3.duplicate(), self.4.duplicate(), self.5.duplicate(), self.6.duplicate(), self.7.duplicate(), self.8.duplicate(), self.9.duplicate(), self.10.duplicate(), self.11.duplicate(), self.12.duplicate(), self.13.duplicate(), self.14.duplicate(), self.15.duplicate());
        let back = (self.16.duplicate(), self.17.duplicate(), self.18.duplicate(), self.19.duplicate());
        let first = <(V0, V1, V2, V3, V4, V5, V6, V7, V8, V9, V10, V11, V12, V13, V14, V15) as PreparedParamValues<HCons<T0, HCons<T1, HCons<T2, HCons<T3, HCons<T4, HCons<T5, HCons<T6, HCons<T7, HCons<T8, HCons<T9, HCons<T10, HCons<T11, HCons<T12, HCons<T13, HCons<T14, HCons<T15, HNil>>>>>>>>>>>>>>>>, B>>::write_params(&front);
        let rest = <(V16, V17, V18, V19) as PreparedParamValues<HCons<T16, HCons<T17, HCons<T18, HCons<T19, HNil>>>>, B>>::write_params(&back);
        join(first, rest)
    }

    fn write_param_at(&self, index: usize) -> (result: Result<Option<List<B::Param>>, B::Error>) {
        if index < 16 {
            let front = (self.0.duplicate(), self.1.duplicate(), self.2.duplicate(), self.3.duplicate(), self.4.duplicate(), self.5.duplicate(), self.6.duplicate(), self.7.duplicate(), self.8.duplicate(), self.9.duplicate(), self.10.duplicate(), self.11.duplicate(), self.12.duplicate(), self.13.duplicate(), self.14.duplicate(), self.15.duplicate());
            <(V0, V1, V2, V3, V4, V5, V6, V7, V8, V9, V10, V11, V12, V13, V14, V15) as PreparedParamValues<HCons<T0, HCons<T1, HCons<T2, HCons<T3, HCons<T4, HCons<T5, HCons<T6, HCons<T7, HCons<T8, HCons<T9, HCons<T10, HCons<T11, HCons<T12, HCons<T13, HCons<T14, HCons<T15, HNil>>>>>>>>>>>>>>>>, B>>::write_param_at(&front, index)
        } else {
            let back = (self.16.duplicate(), self.17.duplicate(), self.18.duplicate(), self.19.duplicate());
            <(V16, V17, V18, V19) as PreparedParamValues<HCons<T16, HCons<T17, HCons<T18, HCons<T19, HNil>>>>, B>>::write_param_at(&back, index - 16)
        }
    }
}

impl<
    B: Backend,
    T0, T1, T2, T3, T4, T5, T6, T7, T8, T9, T10, T11, T12, T13, T14, T15, T16, T17, T18, T19, T20,
    V0: Duplicate, V1: Duplicate, V2: Duplicate, V3: Duplicate, V4: Duplicate, V5: Duplicate, V6: Duplicate, V7: Duplicate, V8: Duplicate, V9: Duplicate, V10: Duplicate, V11: Duplicate, V12: Duplicate, V13: Duplicate, V14: Duplicate, V15: Duplicate, V16: Duplicate, V17: Duplicate, V18: Duplicate, V19: Duplicate, V20: Duplicate,
> PreparedParamValues<HCons<T0, HCons<T1, HCons<T2, HCons<T3, HCons<T4, HCons<T5, HCons<T6, HCons<T7, HCons<T8, HCons<T9, HCons<T10, HCons<T11, HCons<T12, HCons<T13, HCons<T14, HCons<T15, HCons<T16, HCons<T17, HCons<T18, HCons<T19, HCons<T20, HNil>>>>>>>>>>>>>>>>>>>>>, B> for (V0, V1, V2, V3, V4, V5, V6, V7, V8, V9, V10, V11, V12, V13, V14, V15, V16, V17, V18, V19, V20) where
    (V0, V1, V2, V3, V4, V5, V6, V7, V8, V9, V10, V11, V12, V13, V14, V15): PreparedParamValues<HCons<T0, HCons<T1, HCons<T2, HCons<T3, HCons<T4, HCons<T5, HCons<T6, HCons<T7, HCons<T8, HCons<T9, HCons<T10, HCons<T11, HCons<T12, HCons<T13, HCons<T14, HCons<T15, HNil>>>>>>>>>>>>>>>>, B>,
    (V16, V17, V18, V19, V20): PreparedParamValues<HCons<T16, HCons<T17, HCons<T18, HCons<T19, HCons<T20, HNil>>>>>, B>,
 {
    open spec fn all_encoded(&self, result: Result<List<B::Param>, B::Error>) -> bool {
        let front = (self.0, self.1, self.2, self.3, self.4, self.5, self.6, self.7, self.8, self.9, self.10, self.11, self.12, self.13, self.14, self.15);
        let back = (self.16, self.17, self.18, self.19, self.20);
        exists|first: Result<List<B::Param>, B::Error>, rest: Result<List<B::Param>, B::Error>|
            {
                &&& #[trigger] <(V0, V1, V2, V3, V4, V5, V6, V7, V8, V9, V10, V11, V12, V13, V14, V15) as PreparedParamValues<HCons<T0, HCons<T1, HCons<T2, HCons<T3, HCons<T4, HCons<T5, HCons<T6, HCons<T7, HCons<T8, HCons<T9, HCons<T10, HCons<T11, HCons<T12, HCons<T13, HCons<T14, HCons<T15, HNil>>>>>>>>>>>>>>>>, B>>::all_encoded(&front, first)
                &&& #[trigger] <(V16, V17, V18, V19, V20) as PreparedParamValues<HCons<T16, HCons<T17, HCons<T18, HCons<T19, HCons<T20, HNil>>>>>, B>>::all_encoded(&back, rest)
                &&& result == crate::params::joined(first, rest)
            }
    }

    open spec fn one_encoded(&self, index: usize, result: Result<Option<List<B::Param>>, B::Error>) -> bool {
        let front = (self.0, self.1, self.2, self.3, self.4, self.5, self.6, self.7, self.8, self.9, self.10, self.11, self.12, self.13, self.14, self.15);
        let back = (self.16, self.17, self.18, self.19, self.20);
        if index < 16 {
            <(V0, V1, V2, V3, V4, V5, V6, V7, V8, V9, V10, V11, V12, V13, V14, V15) as PreparedParamValues<HCons<T0, HCons<T1, HCons<T2, HCons<T3, HCons<T4, HCons<T5, HCons<T6, HCons<T7, HCons<T8, HCons<T9, HCons<T10, HCons<T11, HCons<T12, HCons<T13, HCons<T14, HCons<T15, HNil>>>>>>>>>>>>>>>>, B>>::one_encoded(&front, index, result)
        } else {
            <(V16, V17, V18, V19, V20) as PreparedParamValues<HCons<T16, HCons<T17, HCons<T18, HCons<T19, HCons<T20, HNil>>>>>, B>>::one_encoded(&back, (index - 16) as usize, result)
        }
    }

    fn write_params(&self) -> (result: Result<List<B::Param>, B::Error>) {
        let front = (self.0.duplicate(), self.1.duplicate(), self.2.duplicate(), self.3.duplicate(), self.4.duplicate(), self.5.duplicate(), self.6.duplicate(), self.7.duplicate(), self.8.duplicate(), self.9.duplicate(), self.10.duplicate(), self.11.duplicate(), self.12.duplicate(), self.13.duplicate(), self.14.duplicate(), self.15.duplicate());
        let back = (self.16.duplicate(), self.17.duplicate(), self.18.duplicate(), self.19.duplicate(), self.20.duplicate());
        let first = <(V0, V1, V2, V3, V4, V5, V6, V7, V8, V9, V10, V11, V12, V13, V14, V15) as PreparedParamValues<HCons<T0, HCons<T1, HCons<T2, HCons<T3, HCons<T4, HCons<T5, HCons<T6, HCons<T7, HCons<T8, HCons<T9, HCons<T10, HCons<T11, HCons<T12, HCons<T13, HCons<T14, HCons<T15, HNil>>>>>>>>>>>>>>>>, B>>::write_params(&front);
        let rest = <(V16, V17, V18, V19, V20) as PreparedParamValues<HCons<T16, HCons<T17, HCons<T18, HCons<T19, HCons<T20, HNil>>>>>, B>>::write_params(&back);
        join(first, rest)
    }

    fn write_param_at(&self, index: usize) -> (result: Result<Option<List<B::Param>>, B::Error>) {
        if index < 16 {
            let front = (self.0.duplicate(), self.1.duplicate(), self.2.duplicate(), self.3.duplicate(), self.4.duplicate(), self.5.duplicate(), self.6.duplicate(), self.7.duplicate(), self.8.duplicate(), self.9.duplicate(), self.10.duplicate(), self.11.duplicate(), self.12.duplicate(), self.13.duplicate(), self.14.duplicate(), self.15.duplicate());
            <(V0, V1, V2, V3, V4, V5, V6, V7, V8, V9, V10, V11, V12, V13, V14, V15) as PreparedParamValues<HCons<T0, HCons<T1, HCons<T2, HCons<T3, HCons<T4, HCons<T5, HCons<T6, HCons<T7, HCons<T8, HCons<T9, HCons<T10, HCons<T11, HCons<T12, HCons<T13, HCons<T14, HCons<T15, HNil>>>>>>>>>>>>>>>>, B>>::write_param_at(&front, index)
        } else {
            let back = (self.16.duplicate(), self.17.duplicate(), self.18.duplicate(), self.19.duplicate(), self.20.duplicate());
            <(V16, V17, V18, V19, V20) as PreparedParamValues<HCons<T16, HCons<T17, HCons<T18, HCons<T19, HCons<T20, HNil>>>>>, B>>::write_param_at(&back, index - 16)
        }
    }
}

impl<
    B: Backend,
    T0, T1, T2, T3, T4, T5, T6, T7, T8, T9, T10, T11, T12, T13, T14, T15, T16, T17, T18, T19, T20, T21,
    V0: Duplicate, V1: Duplicate, V2: Duplicate, V3: Duplicate, V4: Duplicate, V5: Duplicate, V6: Duplicate, V7: Duplicate, V8: Duplicate, V9: Duplicate, V10: Duplicate, V11: Duplicate, V12: Duplicate, V13: Duplicate, V14: Duplicate, V15: Duplicate, V16: Duplicate, V17: Duplicate, V18: Duplicate, V19: Duplicate, V20: Duplicate, V21: Duplicate,
> PreparedParamValues<HCons<T0, HCons<T1, HCons<T2, HCons<T3, HCons<T4, HCons<T5, HCons<T6, HCons<T7, HCons<T8, HCons<T9, HCons<T10, HCons<T11, HCons<T12, HCons<T13, HCons<T14, HCons<T15, HCons<T16, HCons<T17, HCons<T18, HCons<T19, HCons<T20, HCons<T21, HNil>>>>>>>>>>>>>>>>>>>>>>, B> for (V0, V1, V2, V3, V4, V5, V6, V7, V8, V9, V10, V11, V12, V13, V14, V15, V16, V17, V18, V19, V20, V21) where
    (V0, V1, V2, V3, V4, V5, V6, V7, V8, V9, V10, V11, V12, V13, V14, V15): PreparedParamValues<HCons<T0, HCons<T1, HCons<T2, HCons<T3, HCons<T4, HCons<T5, HCons<T6, HCons<T7, HCons<T8, HCons<T9, HCons<T10, HCons<T11, HCons<T12, HCons<T13, HCons<T14, HCons<T15, HNil>>>>>>>>>>>>>>>>, B>,
    (V16, V17, V18, V19, V20, V21): PreparedParamValues<HCons<T16, HCons<T17, HCons<T18, HCons<T19, HCons<T20, HCons<T21, HNil>>>>>>, B>,
 {
    open spec fn all_encoded(&self, result: Result<List<B::Param>, B::Error>) -> bool {
        let front = (self.0, self.1, self.2, self.3, self.4, self.5, self.6, self.7, self.8, self.9, self.10, self.11, self.12, self.13, self.14, self.15);
        let back = (self.16, self.17, self.18, self.19, self.20, self.21);
        exists|first: Result<List<B::Param>, B::Error>, rest: Result<List<B::Param>, B::Error>|
            {
                &&& #[trigger] <(V0, V1, V2, V3, V4, V5, V6, V7, V8, V9, V10, V11, V12, V13, V14, V15) as PreparedParamValues<HCons<T0, HCons<T1, HCons<T2, HCons<T3, HCons<T4, HCons<T5, HCons<T6, HCons<T7, HCons<T8, HCons<T9, HCons<T10, HCons<T11, HCons<T12, HCons<T13, HCons<T14, HCons<T15, HNil>>>>>>>>>>>>>>>>, B>>::all_encoded(&front, first)
                &&& #[trigger] <(V16, V17, V18, V19, V20, V21) as PreparedParamValues<HCons<T16, HCons<T17, HCons<T18, HCons<T19, HCons<T20, HCons<T21, HNil>>>>>>, B>>::all_encoded(&back, rest)
                &&& result == crate::params::joined(first, rest)
            }
    }

    open spec fn one_encoded(&self, index: usize, result: Result<Option<List<B::Param>>, B::Error>) -> bool {
        let front = (self.0, self.1, self.2, self.3, self.4, self.5, self.6, self.7, self.8, self.9, self.10, self.11, self.12, self.13, self.14, self.15);
        let back = (self.16, self.17, self.18, self.19, self.20, self.21);
        if index < 16 {
            <(V0, V1, V2, V3, V4, V5, V6, V7, V8, V9, V10, V11, V12, V13, V14, V15) as PreparedParamValues<HCons<T0, HCons<T1, HCons<T2, HCons<T3, HCons<T4, HCons<T5, HCons<T6, HCons<T7, HCons<T8, HCons<T9, HCons<T10, HCons<T11, HCons<T12, HCons<T13, HCons<T14, HCons<T15, HNil>>>>>>>>>>>>>>>>, B>>::one_encoded(&front, index, result)
        } else {
            <(V16, V17, V18, V19, V20, V21) as PreparedParamValues<HCons<T16, HCons<T17, HCons<T18, HCons<T19, HCons<T20, HCons<T21, HNil>>>>>>, B>>::one_encoded(&back, (index - 16) as usize, result)
        }
    }

    fn write_params(&self) -> (result: Result<List<B::Param>, B::Error>) {
        let front = (self.0.duplicate(), self.1.duplicate(), self.2.duplicate(), self.3.duplicate(), self.4.duplicate(), self.5.duplicate(), self.6.duplicate(), self.7.duplicate(), self.8.duplicate(), self.9.duplicate(), self.10.duplicate(), self.11.duplicate(), self.12.duplicate(), self.13.duplicate(), self.14.duplicate(), self.15.duplicate());
        let back = (self.16.duplicate(), self.17.duplicate(), self.18.duplicate(), self.19.duplicate(), self.20.duplicate(), self.21.duplicate());
        let first = <(V0, V1, V2, V3, V4, V5, V6, V7, V8, V9, V10, V11, V12, V13, V14, V15) as PreparedParamValues<HCons<T0, HCons<T1, HCons<T2, HCons<T3, HCons<T4, HCons<T5, HCons<T6, HCons<T7, HCons<T8, HCons<T9, HCons<T10, HCons<T11, HCons<T12, HCons<T13, HCons<T14, HCons<T15, HNil>>>>>>>>>>>>>>>>, B>>::write_params(&front);
        let rest = <(V16, V17, V18, V19, V20, V21) as PreparedParamValues<HCons<T16, HCons<T17, HCons<T18, HCons<T19, HCons<T20, HCons<T21, HNil>>>>>>, B>>::write_params(&back);
        join(first, rest)
    }

    fn write_param_at(&self, index: usize) -> (result: Result<Option<List<B::Param>>, B::Error>) {
        if index < 16 {
            let front = (self.0.duplicate(), self.1.duplicate(), self.2.duplicate(), self.3.duplicate(), self.4.duplicate(), self.5.duplicate(), self.6.duplicate(), self.7.duplicate(), self.8.duplicate(), self.9.duplicate(), self.10.duplicate(), self.11.duplicate(), self.12.duplicate(), self.13.duplicate(), self.14.duplicate(), self.15.duplicate());
            <(V0, V1, V2, V3, V4, V5, V6, V7, V8, V9, V10, V11, V12, V13, V14, V15) as PreparedParamValues<HCons<T0, HCons<T1, HCons<T2, HCons<T3, HCons<T4, HCons<T5, HCons<T6, HCons<T7, HCons<T8, HCons<T9, HCons<T10, HCons<T11, HCons<T12, HCons<T13, HCons<T14, HCons<T15, HNil>>>>>>>>>>>>>>>>, B>>::write_param_at(&front, index)
        } else {
            let back = (self.16.duplicate(), self.17.duplicate(), self.18.duplicate(), self.19.duplicate(), self.20.duplicate(), self.21.duplicate());
            <(V16, V17, V18, V19, V20, V21) as PreparedParamValues<HCons<T16, HCons<T17, HCons<T18, HCons<T19, HCons<T20, HCons<T21, HNil>>>>>>, B>>::write_param_at(&back, index - 16)
        }
    }
}

impl<
    B: Backend,
    T0, T1, T2, T3, T4, T5, T6, T7, T8, T9, T10, T11, T12, T13, T14, T15, T16, T17, T18, T19, T20, T21, T22,
    V0: Duplicate, V1: Duplicate, V2: Duplicate, V3: Duplicate, V4: Duplicate, V5: Duplicate, V6: Duplicate, V7: Duplicate, V8: Duplicate, V9: Duplicate, V10: Duplicate, V11: Duplicate, V12: Duplicate, V13: Duplicate, V14: Duplicate, V15: Duplicate, V16: Duplicate, V17: Duplicate, V18: Duplicate, V19: Duplicate, V20: Duplicate, V21: Duplicate, V22: Duplicate,
> PreparedParamValues<HCons<T0, HCons<T1, HCons<T2, HCons<T3, HCons<T4, HCons<T5, HCons<T6, HCons<T7, HCons<T8, HCons<T9, HCons<T10, HCons<T11, HCons<T12, HCons<T13, HCons<T14, HCons<T15, HCons<T16, HCons<T17, HCons<T18, HCons<T19, HCons<T20, HCons<T21, HCons<T22, HNil>>>>>>>>>>>>>>>>>>>>>>>, B> for (V0, V1, V2, V3, V4, V5, V6, V7, V8, V9, V10, V11, V12, V13, V14, V15, V16, V17, V18, V19, V20, V21, V22) where
    (V0, V1, V2, V3, V4, V5, V6, V7, V8, V9, V10, V11, V12, V13, V14, V15): PreparedParamValues<HCons<T0, HCons<T1, HCons<T2, HCons<T3, HCons<T4, HCons<T5, HCons<T6, HCons<T7, HCons<T8, HCons<T9, HCons<T10, HCons<T11, HCons<T12, HCons<T13, HCons<T14, HCons<T15, HNil>>>>>>>>>>>>>>>>, B>,
    (V16, V17, V18, V19, V20, V21, V22): PreparedParamValues<HCons<T16, HCons<T17, HCons<T18, HCons<T19, HCons<T20, HCons<T21, HCons<T22, HNil>>>>>>>, B>,
 {
    open spec fn all_encoded(&self, result: Result<List<B::Param>, B::Error>) -> bool {
        let front = (self.0, self.1, self.2, self.3, self.4, self.5, self.6, self.7, self.8, self.9, self.10, self.11, self.12, self.13, self.14, self.15);
        let back = (self.16, self.17, self.18, self.19, self.20, self.21, self.22);
        exists|first: Result<List<B::Param>, B::Error>, rest: Result<List<B::Param>, B::Error>|
            {
                &&& #[trigger] <(V0, V1, V2, V3, V4, V5, V6, V7, V8, V9, V10, V11, V12, V13, V14, V15) as PreparedParamValues<HCons<T0, HCons<T1, HCons<T2, HCons<T3, HCons<T4, HCons<T5, HCons<T6, HCons<T7, HCons<T8, HCons<T9, HCons<T10, HCons<T11, HCons<T12, HCons<T13, HCons<T14, HCons<T15, HNil>>>>>>>>>>>>>>>>, B>>::all_encoded(&front, first)
                &&& #[trigger] <(V16, V17, V18, V19, V20, V21, V22) as PreparedParamValues<HCons<T16, HCons<T17, HCons<T18, HCons<T19, HCons<T20, HCons<T21, HCons<T22, HNil>>>>>>>, B>>::all_encoded(&back, rest)
                &&& result == crate::params::joined(first, rest)
            }
    }

    open spec fn one_encoded(&self, index: usize, result: Result<Option<List<B::Param>>, B::Error>) -> bool {
        let front = (self.0, self.1, self.2, self.3, self.4, self.5, self.6, self.7, self.8, self.9, self.10, self.11, self.12, self.13, self.14, self.15);
        let back = (self.16, self.17, self.18, self.19, self.20, self.21, self.22);
        if index < 16 {
            <(V0, V1, V2, V3, V4, V5, V6, V7, V8, V9, V10, V11, V12, V13, V14, V15) as PreparedParamValues<HCons<T0, HCons<T1, HCons<T2, HCons<T3, HCons<T4, HCons<T5, HCons<T6, HCons<T7, HCons<T8, HCons<T9, HCons<T10, HCons<T11, HCons<T12, HCons<T13, HCons<T14, HCons<T15, HNil>>>>>>>>>>>>>>>>, B>>::one_encoded(&front, index, result)
        } else {
            <(V16, V17, V18, V19, V20, V21, V22) as PreparedParamValues<HCons<T16, HCons<T17, HCons<T18, HCons<T19, HCons<T20, HCons<T21, HCons<T22, HNil>>>>>>>, B>>::one_encoded(&back, (index - 16) as usize, result)
        }
    }

    fn write_params(&self) -> (result: Result<List<B::Param>, B::Error>) {
        let front = (self.0.duplicate(), self.1.duplicate(), self.2.duplicate(), self.3.duplicate(), self.4.duplicate(), self.5.duplicate(), self.6.duplicate(), self.7.duplicate(), self.8.duplicate(), self.9.duplicate(), self.10.duplicate(), self.11.duplicate(), self.12.duplicate(), self.13.duplicate(), self.14.duplicate(), self.15.duplicate());
        let back = (self.16.duplicate(), self.17.duplicate(), self.18.duplicate(), self.19.duplicate(), self.20.duplicate(), self.21.duplicate(), self.22.duplicate());
        let first = <(V0, V1, V2, V3, V4, V5, V6, V7, V8, V9, V10, V11, V12, V13, V14, V15) as PreparedParamValues<HCons<T0, HCons<T1, HCons<T2, HCons<T3, HCons<T4, HCons<T5, HCons<T6, HCons<T7, HCons<T8, HCons<T9, HCons<T10, HCons<T11, HCons<T12, HCons<T13, HCons<T14, HCons<T15, HNil>>>>>>>>>>>>>>>>, B>>::write_params(&front);
        let rest = <(V16, V17, V18, V19, V20, V21, V22) as PreparedParamValues<HCons<T16, HCons<T17, HCons<T18, HCons<T19, HCons<T20, HCons<T21, HCons<T22, HNil>>>>>>>, B>>::write_params(&back);
        join(first, rest)
    }

    fn write_param_at(&self, index: usize) -> (result: Result<Option<List<B::Param>>, B::Error>) {
        if index < 16 {
            let front = (self.0.duplicate(), self.1.duplicate(), self.2.duplicate(), self.3.duplicate(), self.4.duplicate(), self.5.duplicate(), self.6.duplicate(), self.7.duplicate(), self.8.duplicate(), self.9.duplicate(), self.10.duplicate(), self.11.duplicate(), self.12.duplicate(), self.13.duplicate(), self.14.duplicate(), self.15.duplicate());
            <(V0, V1, V2, V3, V4, V5, V6, V7, V8, V9, V10, V11, V12, V13, V14, V15) as PreparedParamValues<HCons<T0, HCons<T1, HCons<T2, HCons<T3, HCons<T4, HCons<T5, HCons<T6, HCons<T7, HCons<T8, HCons<T9, HCons<T10, HCons<T11, HCons<T12, HCons<T13, HCons<T14, HCons<T15, HNil>>>>>>>>>>>>>>>>, B>>::write_param_at(&front, index)
        } else {
            let back = (self.16.duplicate(), self.17.duplicate(), self.18.duplicate(), self.19.duplicate(), self.20.duplicate(), self.21.duplicate(), self.22.duplicate());
            <(V16, V17, V18, V19, V20, V21, V22) as PreparedParamValues<HCons<T16, HCons<T17, HCons<T18, HCons<T19, HCons<T20, HCons<T21, HCons<T22, HNil>>>>>>>, B>>::write_param_at(&back, index - 16)
        }
    }
}

impl<
    B: Backend,
    T0, T1, T2, T3, T4, T5, T6, T7, T8, T9, T10, T11, T12, T13, T14, T15, T16, T17, T18, T19, T20, T21, T22, T23,
    V0: Duplicate, V1: Duplicate, V2: Duplicate, V3: Duplicate, V4: Duplicate, V5: Duplicate, V6: Duplicate, V7: Duplicate, V8: Duplicate, V9: Duplicate, V10: Duplicate, V11: Duplicate, V12: Duplicate, V13: Duplicate, V14: Duplicate, V15: Duplicate, V16: Duplicate, V17: Duplicate, V18: Duplicate, V19: Duplicate, V20: Duplicate, V21: Duplicate, V22: Duplicate, V23: Duplicate,
> PreparedParamValues<HCons<T0, HCons<T1, HCons<T2, HCons<T3, HCons<T4, HCons<T5, HCons<T6, HCons<T7, HCons<T8, HCons<T9, HCons<T10, HCons<T11, HCons<T12, HCons<T13, HCons<T14, HCons<T15, HCons<T16, HCons<T17, HCons<T18, HCons<T19, HCons<T20, HCons<T21, HCons<T22, HCons<T23, HNil>>>>>>>>>>>>>>>>>>>>>>>>, B> for (V0, V1, V2, V3, V4, V5, V6, V7, V8, V9, V10, V11, V12, V13, V14, V15, V16, V17, V18, V19, V20, V21, V22, V23) where
    (V0, V1, V2, V3, V4, V5, V6, V7, V8, V9, V10, V11, V12, V13, V14, V15): PreparedParamValues<HCons<T0, HCons<T1, HCons<T2, HCons<T3, HCons<T4, HCons<T5, HCons<T6, HCons<T7, HCons<T8, HCons<T9, HCons<T10, HCons<T11, HCons<T12, HCons<T13, HCons<T14, HCons<T15, HNil>>>>>>>>>>>>>>>>, B>,
    (V16, V17, V18, V19, V20, V21, V22, V23): PreparedParamValues<HCons<T16, HCons<T17, HCons<T18, HCons<T19, HCons<T20, HCons<T21, HCons<T22, HCons<T23, HNil>>>>>>>>, B>,
 {
    open spec fn all_encoded(&self, result: Result<List<B::Param>, B::Error>) -> bool {
        let front = (self.0, self.1, self.2, self.3, self.4, self.5, self.6, self.7, self.8, self.9, self.10, self.11, self.12, self.13, self.14, self.15);
        let back = (self.16, self.17, self.18, self.19, self.20, self.21, self.22, self.23);
        exists|first: Result<List<B::Param>, B::Error>, rest: Result<List<B::Param>, B::Error>|
            {
                &&& #[trigger] <(V0, V1, V2, V3, V4, V5, V6, V7, V8, V9, V10, V11, V12, V13, V14, V15) as PreparedParamValues<HCons<T0, HCons<T1, HCons<T2, HCons<T3, HCons<T4, HCons<T5, HCons<T6, HCons<T7, HCons<T8, HCons<T9, HCons<T10, HCons<T11, HCons<T12, HCons<T13, HCons<T14, HCons<T15, HNil>>>>>>>>>>>>>>>>, B>>::all_encoded(&front, first)
                &&& #[trigger] <(V16, V17, V18, V19, V20, V21, V22, V23) as PreparedParamValues<HCons<T16, HCons<T17, HCons<T18, HCons<T19, HCons<T20, HCons<T21, HCons<T22, HCons<T23, HNil>>>>>>>>, B>>::all_encoded(&back, rest)
                &&& result == crate::params::joined(first, rest)
            }
    }

    open spec fn one_encoded(&self, index: usize, result: Result<Option<List<B::Param>>, B::Error>) -> bool {
        let front = (self.0, self.1, self.2, self.3, self.4, self.5, self.6, self.7, self.8, self.9, self.10, self.11, self.12, self.13, self.14, self.15);
        let back = (self.16, self.17, self.18, self.19, self.20, self.21, self.22, self.23);
        if index < 16 {
            <(V0, V1, V2, V3, V4, V5, V6, V7, V8, V9, V10, V11, V12, V13, V14, V15) as PreparedParamValues<HCons<T0, HCons<T1, HCons<T2, HCons<T3, HCons<T4, HCons<T5, HCons<T6, HCons<T7, HCons<T8, HCons<T9, HCons<T10, HCons<T11, HCons<T12, HCons<T13, HCons<T14, HCons<T15, HNil>>>>>>>>>>>>>>>>, B>>::one_encoded(&front, index, result)
        } else {
            <(V16, V17, V18, V19, V20, V21, V22, V23) as PreparedParamValues<HCons<T16, HCons<T17, HCons<T18, HCons<T19, HCons<T20, HCons<T21, HCons<T22, HCons<T23, HNil>>>>>>>>, B>>::one_encoded(&back, (index - 16) as usize, result)
        }
    }

    fn write_params(&self) -> (result: Result<List<B::Param>, B::Error>) {
        let front = (self.0.duplicate(), self.1.duplicate(), self.2.duplicate(), self.3.duplicate(), self.4.duplicate(), self.5.duplicate(), self.6.duplicate(), self.7.duplicate(), self.8.duplicate(), self.9.duplicate(), self.10.duplicate(), self.11.duplicate(), self.12.duplicate(), self.13.duplicate(), self.14.duplicate(), self.15.duplicate());
        let back = (self.16.duplicate(), self.17.duplicate(), self.18.duplicate(), self.19.duplicate(), self.20.duplicate(), self.21.duplicate(), self.22.duplicate(), self.23.duplicate());
        let first = <(V0, V1, V2, V3, V4, V5, V6, V7, V8, V9, V10, V11, V12, V13, V14, V15) as PreparedParamValues<HCons<T0, HCons<T1, HCons<T2, HCons<T3, HCons<T4, HCons<T5, HCons<T6, HCons<T7, HCons<T8, HCons<T9, HCons<T10, HCons<T11, HCons<T12, HCons<T13, HCons<T14, HCons<T15, HNil>>>>>>>>>>>>>>>>, B>>::write_params(&front);
        let rest = <(V16, V17, V18, V19, V20, V21, V22, V23) as PreparedParamValues<HCons<T16, HCons<T17, HCons<T18, HCons<T19, HCons<T20, HCons<T21, HCons<T22, HCons<T23, HNil>>>>>>>>, B>>::write_params(&back);
        join(first, rest)
    }

    fn write_param_at(&self, index: usize) -> (result: Result<Option<List<B::Param>>, B::Error>) {
        if index < 16 {
            let front = (self.0.duplicate(), self.1.duplicate(), self.2.duplicate(), self.3.duplicate(), self.4.duplicate(), self.5.duplicate(), self.6.duplicate(), self.7.duplicate(), self.8.duplicate(), self.9.duplicate(), self.10.duplicate(), self.11.duplicate(), self.12.duplicate(), self.13.duplicate(), self.14.duplicate(), self.15.duplicate());
            <(V0, V1, V2, V3, V4, V5, V6, V7, V8, V9, V10, V11, V12, V13, V14, V15) as PreparedParamValues<HCons<T0, HCons<T1, HCons<T2, HCons<T3, HCons<T4, HCons<T5, HCons<T6, HCons<T7, HCons<T8, HCons<T9, HCons<T10, HCons<T11, HCons<T12, HCons<T13, HCons<T14, HCons<T15, HNil>>>>>>>>>>>>>>>>, B>>::write_param_at(&front, index)
        } else {
            let back = (self.16.duplicate(), self.17.duplicate(), self.18.duplicate(), self.19.duplicate(), self.20.duplicate(), self.21.duplicate(), self.22.duplicate(), self.23.duplicate());
            <(V16, V17, V18, V19, V20, V21, V22, V23) as PreparedParamValues<HCons<T16, HCons<T17, HCons<T18, HCons<T19, HCons<T20, HCons<T21, HCons<T22, HCons<T23, HNil>>>>>>>>, B>>::write_param_at(&back, index - 16)
        }
    }
}

impl<
    B: Backend,
    T0, T1, T2, T3, T4, T5, T6, T7, T8, T9, T10, T11, T12, T13, T14, T15, T16, T17, T18, T19, T20, T21, T22, T23, T24,
    V0: Duplicate, V1: Duplicate, V2: Duplicate, V3: Duplicate, V4: Duplicate, V5: Duplicate, V6: Duplicate, V7: Duplicate, V8: Duplicate, V9: Duplicate, V10: Duplicate, V11: Duplicate, V12: Duplicate, V13: Duplicate, V14: Duplicate, V15: Duplicate, V16: Duplicate, V17: Duplicate, V18: Duplicate, V19: Duplicate, V20: Duplicate, V21: Duplicate, V22: Duplicate, V23: Duplicate, V24: Duplicate,
> PreparedParamValues<HCons<T0, HCons<T1, HCons<T2, HCons<T3, HCons<T4, HCons<T5, HCons<T6, HCons<T7, HCons<T8, HCons<T9, HCons<T10, HCons<T11, HCons<T12, HCons<T13, HCons<T14, HCons<T15, HCons<T16, HCons<T17, HCons<T18, HCons<T19, HCons<T20, HCons<T21, HCons<T22, HCons<T23, HCons<T24, HNil>>>>>>>>>>>>>>>>>>>>>>>>>, B> for (V0, V1, V2, V3, V4, V5, V6, V7, V8, V9, V10, V11, V12, V13, V14, V15, V16, V17, V18, V19, V20, V21, V22, V23, V24) where
    (V0, V1, V2, V3, V4, V5, V6, V7, V8, V9, V10, V11, V12, V13, V14, V15): PreparedParamValues<HCons<T0, HCons<T1, HCons<T2, HCons<T3, HCons<T4, HCons<T5, HCons<T6, HCons<T7, HCons<T8, HCons<T9, HCons<T10, HCons<T11, HCons<T12, HCons<T13, HCons<T14, HCons<T15, HNil>>>>>>>>>>>>>>>>, B>,
    (V16, V17, V18, V19, V20, V21, V22, V23, V24): PreparedParamValues<HCons<T16, HCons<T17, HCons<T18, HCons<T19, HCons<T20, HCons<T21, HCons<T22, HCons<T23, HCons<T24, HNil>>>>>>>>>, B>,
 {
    open spec fn all_encoded(&self, result: Result<List<B::Param>, B::Error>) -> bool {
        let front = (self.0, self.1, self.2, self.3, self.4, self.5, self.6, self.7, self.8, self.9, self.10, self.11, self.12, self.13, self.14, self.15);
        let back = (self.16, self.17, self.18, self.19, self.20, self.21, self.22, self.23, self.24);
        exists|first: Result<List<B::Param>, B::Error>, rest: Result<List<B::Param>, B::Error>|
            {
                &&& #[trigger] <(V0, V1, V2, V3, V4, V5, V6, V7, V8, V9, V10, V11, V12, V13, V14, V15) as PreparedParamValues<HCons<T0, HCons<T1, HCons<T2, HCons<T3, HCons<T4, HCons<T5, HCons<T6, HCons<T7, HCons<T8, HCons<T9, HCons<T10, HCons<T11, HCons<T12, HCons<T13, HCons<T14, HCons<T15, HNil>>>>>>>>>>>>>>>>, B>>::all_encoded(&front, first)
                &&& #[trigger] <(V16, V17, V18, V19, V20, V21, V22, V23, V24) as PreparedParamValues<HCons<T16, HCons<T17, HCons<T18, HCons<T19, HCons<T20, HCons<T21, HCons<T22, HCons<T23, HCons<T24, HNil>>>>>>>>>, B>>::all_encoded(&back, rest)
                &&& result == crate::params::joined(first, rest)
            }
    }

    open spec fn one_encoded(&self, index: usize, result: Result<Option<List<B::Param>>, B::Error>) -> bool {
        let front = (self.0, self.1, self.2, self.3, self.4, self.5, self.6, self.7, self.8, self.9, self.10, self.11, self.12, self.13, self.14, self.15);
        let back = (self.16, self.17, self.18, self.19, self.20, self.21, self.22, self.23, self.24);
        if index < 16 {
            <(V0, V1, V2, V3, V4, V5, V6, V7, V8, V9, V10, V11, V12, V13, V14, V15) as PreparedParamValues<HCons<T0, HCons<T1, HCons<T2, HCons<T3, HCons<T4, HCons<T5, HCons<T6, HCons<T7, HCons<T8, HCons<T9, HCons<T10, HCons<T11, HCons<T12, HCons<T13, HCons<T14, HCons<T15, HNil>>>>>>>>>>>>>>>>, B>>::one_encoded(&front, index, result)
        } else {
            <(V16, V17, V18, V19, V20, V21, V22, V23, V24) as PreparedParamValues<HCons<T16, HCons<T17, HCons<T18, HCons<T19, HCons<T20, HCons<T21, HCons<T22, HCons<T23, HCons<T24, HNil>>>>>>>>>, B>>::one_encoded(&back, (index - 16) as usize, result)
        }
    }

    fn write_params(&self) -> (result: Result<List<B::Param>, B::Error>) {
        let front = (self.0.duplicate(), self.1.duplicate(), self.2.duplicate(), self.3.duplicate(), self.4.duplicate(), self.5.duplicate(), self.6.duplicate(), self.7.duplicate(), self.8.duplicate(), self.9.duplicate(), self.10.duplicate(), self.11.duplicate(), self.12.duplicate(), self.13.duplicate(), self.14.duplicate(), self.15.duplicate());
        let back = (self.16.duplicate(), self.17.duplicate(), self.18.duplicate(), self.19.duplicate(), self.20.duplicate(), self.21.duplicate(), self.22.duplicate(), self.23.duplicate(), self.24.duplicate());
        let first = <(V0, V1, V2, V3, V4, V5, V6, V7, V8, V9, V10, V11, V12, V13, V14, V15) as PreparedParamValues<HCons<T0, HCons<T1, HCons<T2, HCons<T3, HCons<T4, HCons<T5, HCons<T6, HCons<T7, HCons<T8, HCons<T9, HCons<T10, HCons<T11, HCons<T12, HCons<T13, HCons<T14, HCons<T15, HNil>>>>>>>>>>>>>>>>, B>>::write_params(&front);
        let rest = <(V16, V17, V18, V19, V20, V21, V22, V23, V24) as PreparedParamValues<HCons<T16, HCons<T17, HCons<T18, HCons<T19, HCons<T20, HCons<T21, HCons<T22, HCons<T23, HCons<T24, HNil>>>>>>>>>, B>>::write_params(&back);
        join(first, rest)
    }

    fn write_param_at(&self, index: usize) -> (result: Result<Option<List<B::Param>>, B::Error>) {
        if index < 16 {
            let front = (self.0.duplicate(), self.1.duplicate(), self.2.duplicate(), self.3.duplicate(), self.4.duplicate(), self.5.duplicate(), self.6.duplicate(), self.7.duplicate(), self.8.duplicate(), self.9.duplicate(), self.10.duplicate(), self.11.duplicate(), self.12.duplicate(), self.13.duplicate(), self.14.duplicate(), self.15.duplicate());
            <(V0, V1, V2, V3, V4, V5, V6, V7, V8, V9, V10, V11, V12, V13, V14, V15) as PreparedParamValues<HCons<T0, HCons<T1, HCons<T2, HCons<T3, HCons<T4, HCons<T5, HCons<T6, HCons<T7, HCons<T8, HCons<T9, HCons<T10, HCons<T11, HCons<T12, HCons<T13, HCons<T14, HCons<T15, HNil>>>>>>>>>>>>>>>>, B>>::write_param_at(&front, index)
        } else {
            let back = (self.16.duplicate(), self.17.duplicate(), self.18.duplicate(), self.19.duplicate(), self.20.duplicate(), self.21.duplicate(), self.22.duplicate(), self.23.duplicate(), self.24.duplicate());
            <(V16, V17, V18, V19, V20, V21, V22, V23, V24) as PreparedParamValues<HCons<T16, HCons<T17, HCons<T18, HCons<T19, HCons<T20, HCons<T21, HCons<T22, HCons<T23, HCons<T24, HNil>>>>>>>>>, B>>::write_param_at(&back, index - 16)
        }
    }
}

impl<
    B: Backend,
    T0, T1, T2, T3, T4, T5, T6, T7, T8, T9, T10, T11, T12, T13, T14, T15, T16, T17, T18, T19, T20, T21, T22, T23, T24, T25,
    V0: Duplicate, V1: Duplicate, V2: Duplicate, V3: Duplicate, V4: Duplicate, V5: Duplicate, V6: Duplicate, V7: Duplicate, V8: Duplicate, V9: Duplicate, V10: Duplicate, V11: Duplicate, V12: Duplicate, V13: Duplicate, V14: Duplicate, V15: Duplicate, V16: Duplicate, V17: Duplicate, V18: Duplicate, V19: Duplicate, V20: Duplicate, V21: Duplicate, V22: Duplicate, V23: Duplicate, V24: Duplicate, V25: Duplicate,
> PreparedParamValues<HCons<T0, HCons<T1, HCons<T2, HCons<T3, HCons<T4, HCons<T5, HCons<T6, HCons<T7, HCons<T8, HCons<T9, HCons<T10, HCons<T11, HCons<T12, HCons<T13, HCons<T14, HCons<T15, HCons<T16, HCons<T17, HCons<T18, HCons<T19, HCons<T20, HCons<T21, HCons<T22, HCons<T23, HCons<T24, HCons<T25, HNil>>>>>>>>>>>>>>>>>>>>>>>>>>, B> for (V0, V1, V2, V3, V4, V5, V6, V7, V8, V9, V10, V11, V12, V13, V14, V15, V16, V17, V18, V19, V20, V21, V22, V23, V24, V25) where
    (V0, V1, V2, V3, V4, V5, V6, V7, V8, V9, V10, V11, V12, V13, V14, V15): PreparedParamValues<HCons<T0, HCons<T1, HCons<T2, HCons<T3, HCons<T4, HCons<T5, HCons<T6, HCons<T7, HCons<T8, HCons<T9, HCons<T10, HCons<T11, HCons<T12, HCons<T13, HCons<T14, HCons<T15, HNil>>>>>>>>>>>>>>>>, B>,
    (V16, V17, V18, V19, V20, V21, V22, V23, V24, V25): PreparedParamValues<HCons<T16, HCons<T17, HCons<T18, HCons<T19, HCons<T20, HCons<T21, HCons<T22, HCons<T23, HCons<T24, HCons<T25, HNil>>>>>>>>>>, B>,
 {
    open spec fn all_encoded(&self, result: Result<List<B::Param>, B::Error>) -> bool {
        let front = (self.0, self.1, self.2, self.3, self.4, self.5, self.6, self.7, self.8, self.9, self.10, self.11, self.12, self.13, self.14, self.15);
        let back = (self.16, self.17, self.18, self.19, self.20, self.21, self.22, self.23, self.24, self.25);
        exists|first: Result<List<B::Param>, B::Error>, rest: Result<List<B::Param>, B::Error>|
            {
                &&& #[trigger] <(V0, V1, V2, V3, V4, V5, V6, V7, V8, V9, V10, V11, V12, V13, V14, V15) as PreparedParamValues<HCons<T0, HCons<T1, HCons<T2, HCons<T3, HCons<T4, HCons<T5, HCons<T6, HCons<T7, HCons<T8, HCons<T9, HCons<T10, HCons<T11, HCons<T12, HCons<T13, HCons<T14, HCons<T15, HNil>>>>>>>>>>>>>>>>, B>>::all_encoded(&front, first)
                &&& #[trigger] <(V16, V17, V18, V19, V20, V21, V22, V23, V24, V25) as PreparedParamValues<HCons<T16, HCons<T17, HCons<T18, HCons<T19, HCons<T20, HCons<T21, HCons<T22, HCons<T23, HCons<T24, HCons<T25, HNil>>>>>>>>>>, B>>::all_encoded(&back, rest)
                &&& result == crate::params::joined(first, rest)
            }
    }

    open spec fn one_encoded(&self, index: usize, result: Result<Option<List<B::Param>>, B::Error>) -> bool {
        let front = (self.0, self.1, self.2, self.3, self.4, self.5, self.6, self.7, self.8, self.9, self.10, self.11, self.12, self.13, self.14, self.15);
        let back = (self.16, self.17, self.18, self.19, self.20, self.21, self.22, self.23, self.24, self.25);
        if index < 16 {
            <(V0, V1, V2, V3, V4, V5, V6, V7, V8, V9, V10, V11, V12, V13, V14, V15) as PreparedParamValues<HCons<T0, HCons<T1, HCons<T2, HCons<T3, HCons<T4, HCons<T5, HCons<T6, HCons<T7, HCons<T8, HCons<T9, HCons<T10, HCons<T11, HCons<T12, HCons<T13, HCons<T14, HCons<T15, HNil>>>>>>>>>>>>>>>>, B>>::one_encoded(&front, index, result)
        } else {
            <(V16, V17, V18, V19, V20, V21, V22, V23, V24, V25) as PreparedParamValues<HCons<T16, HCons<T17, HCons<T18, HCons<T19, HCons<T20, HCons<T21, HCons<T22, HCons<T23, HCons<T24, HCons<T25, HNil>>>>>>>>>>, B>>::one_encoded(&back, (index - 16) as usize, result)
        }
    }

    fn write_params(&self) -> (result: Result<List<B::Param>, B::Error>) {
        let front = (self.0.duplicate(), self.1.duplicate(), self.2.duplicate(), self.3.duplicate(), self.4.duplicate(), self.5.duplicate(), self.6.duplicate(), self.7.duplicate(), self.8.duplicate(), self.9.duplicate(), self.10.duplicate(), self.11.duplicate(), self.12.duplicate(), self.13.duplicate(), self.14.duplicate(), self.15.duplicate());
        let back = (self.16.duplicate(), self.17.duplicate(), self.18.duplicate(), self.19.duplicate(), self.20.duplicate(), self.21.duplicate(), self.22.duplicate(), self.23.duplicate(), self.24.duplicate(), self.25.duplicate());
        let first = <(V0, V1, V2, V3, V4, V5, V6, V7, V8, V9, V10, V11, V12, V13, V14, V15) as PreparedParamValues<HCons<T0, HCons<T1, HCons<T2, HCons<T3, HCons<T4, HCons<T5, HCons<T6, HCons<T7, HCons<T8, HCons<T9, HCons<T10, HCons<T11, HCons<T12, HCons<T13, HCons<T14, HCons<T15, HNil>>>>>>>>>>>>>>>>, B>>::write_params(&front);
        let rest = <(V16, V17, V18, V19, V20, V21, V22, V23, V24, V25) as PreparedParamValues<HCons<T16, HCons<T17, HCons<T18, HCons<T19, HCons<T20, HCons<T21, HCons<T22, HCons<T23, HCons<T24, HCons<T25, HNil>>>>>>>>>>, B>>::write_params(&back);
        join(first, rest)
    }

    fn write_param_at(&self, index: usize) -> (result: Result<Option<List<B::Param>>, B::Error>) {
        if index < 16 {
            let front = (self.0.duplicate(), self.1.duplicate(), self.2.duplicate(), self.3.duplicate(), self.4.duplicate(), self.5.duplicate(), self.6.duplicate(), self.7.duplicate(), self.8.duplicate(), self.9.duplicate(), self.10.duplicate(), self.11.duplicate(), self.12.duplicate(), self.13.duplicate(), self.14.duplicate(), self.15.duplicate());
            <(V0, V1, V2, V3, V4, V5, V6, V7, V8, V9, V10, V11, V12, V13, V14, V15) as PreparedParamValues<HCons<T0, HCons<T1, HCons<T2, HCons<T3, HCons<T4, HCons<T5, HCons<T6, HCons<T7, HCons<T8, HCons<T9, HCons<T10, HCons<T11, HCons<T12, HCons<T13, HCons<T14, HCons<T15, HNil>>>>>>>>>>>>>>>>, B>>::write_param_at(&front, index)
        } else {
            let back = (self.16.duplicate(), self.17.duplicate(), self.18.duplicate(), self.19.duplicate(), self.20.duplicate(), self.21.duplicate(), self.22.duplicate(), self.23.duplicate(), self.24.duplicate(), self.25.duplicate());
            <(V16, V17, V18, V19, V20, V21, V22, V23, V24, V25) as PreparedParamValues<HCons<T16, HCons<T17, HCons<T18, HCons<T19, HCons<T20, HCons<T21, HCons<T22, HCons<T23, HCons<T24, HCons<T25, HNil>>>>>>>>>>, B>>::write_param_at(&back, index - 16)
        }
    }
}

impl<
    B: Backend,
    T0, T1, T2, T3, T4, T5, T6, T7, T8, T9, T10, T11, T12, T13, T14, T15, T16, T17, T18, T19, T20, T21, T22, T23, T24, T25, T26,
    V0: Duplicate, V1: Duplicate, V2: Duplicate, V3: Duplicate, V4: Duplicate, V5: Duplicate, V6: Duplicate, V7: Duplicate, V8: Duplicate, V9: Duplicate, V10: Duplicate, V11: Duplicate, V12: Duplicate, V13: Duplicate, V14: Duplicate, V15: Duplicate, V16: Duplicate, V17: Duplicate, V18: Duplicate, V19: Duplicate, V20: Duplicate, V21: Duplicate, V22: Duplicate, V23: Duplicate, V24: Duplicate, V25: Duplicate, V26: Duplicate,
> PreparedParamValues<HCons<T0, HCons<T1, HCons<T2, HCons<T3, HCons<T4, HCons<T5, HCons<T6, HCons<T7, HCons<T8, HCons<T9, HCons<T10, HCons<T11, HCons<T12, HCons<T13, HCons<T14, HCons<T15, HCons<T16, HCons<T17, HCons<T18, HCons<T19, HCons<T20, HCons<T21, HCons<T22, HCons<T23, HCons<T24, HCons<T25, HCons<T26, HNil>>>>>>>>>>>>>>>>>>>>>>>>>>>, B> for (V0, V1, V2, V3, V4, V5, V6, V7, V8, V9, V10, V11, V12, V13, V14, V15, V16, V17, V18, V19, V20, V21, V22, V23, V24, V25, V26) where
    (V0, V1, V2, V3, V4, V5, V6, V7, V8, V9, V10, V11, V12, V13, V14, V15): PreparedParamValues<HCons<T0, HCons<T1, HCons<T2, HCons<T3, HCons<T4, HCons<T5, HCons<T6, HCons<T7, HCons<T8, HCons<T9, HCons<T10, HCons<T11, HCons<T12, HCons<T13, HCons<T14, HCons<T15, HNil>>>>>>>>>>>>>>>>, B>,
    (V16, V17, V18, V19, V20, V21, V22, V23, V24, V25, V26): PreparedParamValues<HCons<T16, HCons<T17, HCons<T18, HCons<T19, HCons<T20, HCons<T21, HCons<T22, HCons<T23, HCons<T24, HCons<T25, HCons<T26, HNil>>>>>>>>>>>, B>,
 {
    open spec fn all_encoded(&self, result: Result<List<B::Param>, B::Error>) -> bool {
        let front = (self.0, self.1, self.2, self.3, self.4, self.5, self.6, self.7, self.8, self.9, self.10, self.11, self.12, self.13, self.14, self.15);
        let back = (self.16, self.17, self.18, self.19, self.20, self.21, self.22, self.23, self.24, self.25, self.26);
        exists|first: Result<List<B::Param>, B::Error>, rest: Result<List<B::Param>, B::Error>|
            {
                &&& #[trigger] <(V0, V1, V2, V3, V4, V5, V6, V7, V8, V9, V10, V11, V12, V13, V14, V15) as PreparedParamValues<HCons<T0, HCons<T1, HCons<T2, HCons<T3, HCons<T4, HCons<T5, HCons<T6, HCons<T7, HCons<T8, HCons<T9, HCons<T10, HCons<T11, HCons<T12, HCons<T13, HCons<T14, HCons<T15, HNil>>>>>>>>>>>>>>>>, B>>::all_encoded(&front, first)
                &&& #[trigger] <(V16, V17, V18, V19, V20, V21, V22, V23, V24, V25, V26) as PreparedParamValues<HCons<T16, HCons<T17, HCons<T18, HCons<T19, HCons<T20, HCons<T21, HCons<T22, HCons<T23, HCons<T24, HCons<T25, HCons<T26, HNil>>>>>>>>>>>, B>>::all_encoded(&back, rest)
                &&& result == crate::params::joined(first, rest)
            }
    }

    open spec fn one_encoded(&self, index: usize, result: Result<Option<List<B::Param>>, B::Error>) -> bool {
        let front = (self.0, self.1, self.2, self.3, self.4, self.5, self.6, self.7, self.8, self.9, self.10, self.11, self.12, self.13, self.14, self.15);
        let back = (self.16, self.17, self.18, self.19, self.20, self.21, self.22, self.23, self.24, self.25, self.26);
        if index < 16 {
            <(V0, V1, V2, V3, V4, V5, V6, V7, V8, V9, V10, V11, V12, V13, V14, V15) as PreparedParamValues<HCons<T0, HCons<T1, HCons<T2, HCons<T3, HCons<T4, HCons<T5, HCons<T6, HCons<T7, HCons<T8, HCons<T9, HCons<T10, HCons<T11, HCons<T12, HCons<T13, HCons<T14, HCons<T15, HNil>>>>>>>>>>>>>>>>, B>>::one_encoded(&front, index, result)
        } else {
            <(V16, V17, V18, V19, V20, V21, V22, V23, V24, V25, V26) as PreparedParamValues<HCons<T16, HCons<T17, HCons<T18, HCons<T19, HCons<T20, HCons<T21, HCons<T22, HCons<T23, HCons<T24, HCons<T25, HCons<T26, HNil>>>>>>>>>>>, B>>::one_encoded(&back, (index - 16) as usize, result)
        }
    }

    fn write_params(&self) -> (result: Result<List<B::Param>, B::Error>) {
        let front = (self.0.duplicate(), self.1.duplicate(), self.2.duplicate(), self.3.duplicate(), self.4.duplicate(), self.5.duplicate(), self.6.duplicate(), self.7.duplicate(), self.8.duplicate(), self.9.duplicate(), self.10.duplicate(), self.11.duplicate(), self.12.duplicate(), self.13.duplicate(), self.14.duplicate(), self.15.duplicate());
        let back = (self.16.duplicate(), self.17.duplicate(), self.18.duplicate(), self.19.duplicate(), self.20.duplicate(), self.21.duplicate(), self.22.duplicate(), self.23.duplicate(), self.24.duplicate(), self.25.duplicate(), self.26.duplicate());
        let first = <(V0, V1, V2, V3, V4, V5, V6, V7, V8, V9, V10, V11, V12, V13, V14, V15) as PreparedParamValues<HCons<T0, HCons<T1, HCons<T2, HCons<T3, HCons<T4, HCons<T5, HCons<T6, HCons<T7, HCons<T8, HCons<T9, HCons<T10, HCons<T11, HCons<T12, HCons<T13, HCons<T14, HCons<T15, HNil>>>>>>>>>>>>>>>>, B>>::write_params(&front);
        let rest = <(V16, V17, V18, V19, V20, V21, V22, V23, V24, V25, V26) as PreparedParamValues<HCons<T16, HCons<T17, HCons<T18, HCons<T19, HCons<T20, HCons<T21, HCons<T22, HCons<T23, HCons<T24, HCons<T25, HCons<T26, HNil>>>>>>>>>>>, B>>::write_params(&back);
        join(first, rest)
    }

    fn write_param_at(&self, index: usize) -> (result: Result<Option<List<B::Param>>, B::Error>) {
        if index < 16 {
            let front = (self.0.duplicate(), self.1.duplicate(), self.2.duplicate(), self.3.duplicate(), self.4.duplicate(), self.5.duplicate(), self.6.duplicate(), self.7.duplicate(), self.8.duplicate(), self.9.duplicate(), self.10.duplicate(), self.11.duplicate(), self.12.duplicate(), self.13.duplicate(), self.14.duplicate(), self.15.duplicate());
            <(V0, V1, V2, V3, V4, V5, V6, V7, V8, V9, V10, V11, V12, V13, V14, V15) as PreparedParamValues<HCons<T0, HCons<T1, HCons<T2, HCons<T3, HCons<T4, HCons<T5, HCons<T6, HCons<T7, HCons<T8, HCons<T9, HCons<T10, HCons<T11, HCons<T12, HCons<T13, HCons<T14, HCons<T15, HNil>>>>>>>>>>>>>>>>, B>>::write_param_at(&front, index)
        } else {
            let back = (self.16.duplicate(), self.17.duplicate(), self.18.duplicate(), self.19.duplicate(), self.20.duplicate(), self.21.duplicate(), self.22.duplicate(), self.23.duplicate(), self.24.duplicate(), self.25.duplicate(), self.26.duplicate());
            <(V16, V17, V18, V19, V20, V21, V22, V23, V24, V25, V26) as PreparedParamValues<HCons<T16, HCons<T17, HCons<T18, HCons<T19, HCons<T20, HCons<T21, HCons<T22, HCons<T23, HCons<T24, HCons<T25, HCons<T26, HNil>>>>>>>>>>>, B>>::write_param_at(&back, index - 16)
        }
    }
}

impl<
    B: Backend,
    T0, T1, T2, T3, T4, T5, T6, T7, T8, T9, T10, T11, T12, T13, T14, T15, T16, T17, T18, T19, T20, T21, T22, T23, T24, T25, T26, T27,
    V0: Duplicate, V1: Duplicate, V2: Duplicate, V3: Duplicate, V4: Duplicate, V5: Duplicate, V6: Duplicate, V7: Duplicate, V8: Duplicate, V9: Duplicate, V10: Duplicate, V11: Duplicate, V12: Duplicate, V13: Duplicate, V14: Duplicate, V15: Duplicate, V16: Duplicate, V17: Duplicate, V18: Duplicate, V19: Duplicate, V20: Duplicate, V21: Duplicate, V22: Duplicate, V23: Duplicate, V24: Duplicate, V25: Duplicate, V26: Duplicate, V27: Duplicate,
> PreparedParamValues<HCons<T0, HCons<T1, HCons<T2, HCons<T3, HCons<T4, HCons<T5, HCons<T6, HCons<T7, HCons<T8, HCons<T9, HCons<T10, HCons<T11, HCons<T12, HCons<T13, HCons<T14, HCons<T15, HCons<T16, HCons<T17, HCons<T18, HCons<T19, HCons<T20, HCons<T21, HCons<T22, HCons<T23, HCons<T24, HCons<T25, HCons<T26, HCons<T27, HNil>>>>>>>>>>>>>>>>>>>>>>>>>>>>, B> for (V0, V1, V2, V3, V4, V5, V6, V7, V8, V9, V10, V11, V12, V13, V14, V15, V16, V17, V18, V19, V20, V21, V22, V23, V24, V25, V26, V27) where
    (V0, V1, V2, V3, V4, V5, V6, V7, V8, V9, V10, V11, V12, V13, V14, V15): PreparedParamValues<HCons<T0, HCons<T1, HCons<T2, HCons<T3, HCons<T4, HCons<T5, HCons<T6, HCons<T7, HCons<T8, HCons<T9, HCons<T10, HCons<T11, HCons<T12, HCons<T13, HCons<T14, HCons<T15, HNil>>>>>>>>>>>>>>>>, B>,
    (V16, V17, V18, V19, V20, V21, V22, V23, V24, V25, V26, V27): PreparedParamValues<HCons<T16, HCons<T17, HCons<T18, HCons<T19, HCons<T20, HCons<T21, HCons<T22, HCons<T23, HCons<T24, HCons<T25, HCons<T26, HCons<T27, HNil>>>>>>>>>>>>, B>,
 {
    open spec fn all_encoded(&self, result: Result<List<B::Param>, B::Error>) -> bool {
        let front = (self.0, self.1, self.2, self.3, self.4, self.5, self.6, self.7, self.8, self.9, self.10, self.11, self.12, self.13, self.14, self.15);
        let back = (self.16, self.17, self.18, self.19, self.20, self.21, self.22, self.23, self.24, self.25, self.26, self.27);
        exists|first: Result<List<B::Param>, B::Error>, rest: Result<List<B::Param>, B::Error>|
            {
                &&& #[trigger] <(V0, V1, V2, V3, V4, V5, V6, V7, V8, V9, V10, V11, V12, V13, V14, V15) as PreparedParamValues<HCons<T0, HCons<T1, HCons<T2, HCons<T3, HCons<T4, HCons<T5, HCons<T6, HCons<T7, HCons<T8, HCons<T9, HCons<T10, HCons<T11, HCons<T12, HCons<T13, HCons<T14, HCons<T15, HNil>>>>>>>>>>>>>>>>, B>>::all_encoded(&front, first)
                &&& #[trigger] <(V16, V17, V18, V19, V20, V21, V22, V23, V24, V25, V26, V27) as PreparedParamValues<HCons<T16, HCons<T17, HCons<T18, HCons<T19, HCons<T20, HCons<T21, HCons<T22, HCons<T23, HCons<T24, HCons<T25, HCons<T26, HCons<T27, HNil>>>>>>>>>>>>, B>>::all_encoded(&back, rest)
                &&& result == crate::params::joined(first, rest)
            }
    }

    open spec fn one_encoded(&self, index: usize, result: Result<Option<List<B::Param>>, B::Error>) -> bool {
        let front = (self.0, self.1, self.2, self.3, self.4, self.5, self.6, self.7, self.8, self.9, self.10, self.11, self.12, self.13, self.14, self.15);
        let back = (self.16, self.17, self.18, self.19, self.20, self.21, self.22, self.23, self.24, self.25, self.26, self.27);
        if index < 16 {
            <(V0, V1, V2, V3, V4, V5, V6, V7, V8, V9, V10, V11, V12, V13, V14, V15) as PreparedParamValues<HCons<T0, HCons<T1, HCons<T2, HCons<T3, HCons<T4, HCons<T5, HCons<T6, HCons<T7, HCons<T8, HCons<T9, HCons<T10, HCons<T11, HCons<T12, HCons<T13, HCons<T14, HCons<T15, HNil>>>>>>>>>>>>>>>>, B>>::one_encoded(&front, index, result)
        } else {
            <(V16, V17, V18, V19, V20, V21, V22, V23, V24, V25, V26, V27) as PreparedParamValues<HCons<T16, HCons<T17, HCons<T18, HCons<T19, HCons<T20, HCons<T21, HCons<T22, HCons<T23, HCons<T24, HCons<T25, HCons<T26, HCons<T27, HNil>>>>>>>>>>>>, B>>::one_encoded(&back, (index - 16) as usize, result)
        }
    }

    fn write_params(&self) -> (result: Result<List<B::Param>, B::Error>) {
        let front = (self.0.duplicate(), self.1.duplicate(), self.2.duplicate(), self.3.duplicate(), self.4.duplicate(), self.5.duplicate(), self.6.duplicate(), self.7.duplicate(), self.8.duplicate(), self.9.duplicate(), self.10.duplicate(), self.11.duplicate(), self.12.duplicate(), self.13.duplicate(), self.14.duplicate(), self.15.duplicate());
        let back = (self.16.duplicate(), self.17.duplicate(), self.18.duplicate(), self.19.duplicate(), self.20.duplicate(), self.21.duplicate(), self.22.duplicate(), self.23.duplicate(), self.24.duplicate(), self.25.duplicate(), self.26.duplicate(), self.27.duplicate());
        let first = <(V0, V1, V2, V3, V4, V5, V6, V7, V8, V9, V10, V11, V12, V13, V14, V15) as PreparedParamValues<HCons<T0, HCons<T1, HCons<T2, HCons<T3, HCons<T4, HCons<T5, HCons<T6, HCons<T7, HCons<T8, HCons<T9, HCons<T10, HCons<T11, HCons<T12, HCons<T13, HCons<T14, HCons<T15, HNil>>>>>>>>>>>>>>>>, B>>::write_params(&front);
        let rest = <(V16, V17, V18, V19, V20, V21, V22, V23, V24, V25, V26, V27) as PreparedParamValues<HCons<T16, HCons<T17, HCons<T18, HCons<T19, HCons<T20, HCons<T21, HCons<T22, HCons<T23, HCons<T24, HCons<T25, HCons<T26, HCons<T27, HNil>>>>>>>>>>>>, B>>::write_params(&back);
        join(first, rest)
    }

    fn write_param_at(&self, index: usize) -> (result: Result<Option<List<B::Param>>, B::Error>) {
        if index < 16 {
            let front = (self.0.duplicate(), self.1.duplicate(), self.2.duplicate(), self.3.duplicate(), self.4.duplicate(), self.5.duplicate(), self.6.duplicate(), self.7.duplicate(), self.8.duplicate(), self.9.duplicate(), self.10.duplicate(), self.11.duplicate(), self.12.duplicate(), self.13.duplicate(), self.14.duplicate(), self.15.duplicate());
            <(V0, V1, V2, V3, V4, V5, V6, V7, V8, V9, V10, V11, V12, V13, V14, V15) as PreparedParamValues<HCons<T0, HCons<T1, HCons<T2, HCons<T3, HCons<T4, HCons<T5, HCons<T6, HCons<T7, HCons<T8, HCons<T9, HCons<T10, HCons<T11, HCons<T12, HCons<T13, HCons<T14, HCons<T15, HNil>>>>>>>>>>>>>>>>, B>>::write_param_at(&front, index)
        } else {
            let back = (self.16.duplicate(), self.17.duplicate(), self.18.duplicate(), self.19.duplicate(), self.20.duplicate(), self.21.duplicate(), self.22.duplicate(), self.23.duplicate(), self.24.duplicate(), self.25.duplicate(), self.26.duplicate(), self.27.duplicate());
            <(V16, V17, V18, V19, V20, V21, V22, V23, V24, V25, V26, V27) as PreparedParamValues<HCons<T16, HCons<T17, HCons<T18, HCons<T19, HCons<T20, HCons<T21, HCons<T22, HCons<T23, HCons<T24, HCons<T25, HCons<T26, HCons<T27, HNil>>>>>>>>>>>>, B>>::write_param_at(&back, index - 16)
        }
    }
}

impl<
    B: Backend,
    T0, T1, T2, T3, T4, T5, T6, T7, T8, T9, T10, T11, T12, T13, T14, T15, T16, T17, T18, T19, T20, T21, T22, T23, T24, T25, T26, T27, T28,
    V0: Duplicate, V1: Duplicate, V2: Duplicate, V3: Duplicate, V4: Duplicate, V5: Duplicate, V6: Duplicate, V7: Duplicate, V8: Duplicate, V9: Duplicate, V10: Duplicate, V11: Duplicate, V12: Duplicate, V13: Duplicate, V14: Duplicate, V15: Duplicate, V16: Duplicate, V17: Duplicate, V18: Duplicate, V19: Duplicate, V20: Duplicate, V21: Duplicate, V22: Duplicate, V23: Duplicate, V24: Duplicate, V25: Duplicate, V26: Duplicate, V27: Duplicate, V28: Duplicate,
> PreparedParamValues<HCons<T0, HCons<T1, HCons<T2, HCons<T3, HCons<T4, HCons<T5, HCons<T6, HCons<T7, HCons<T8, HCons<T9, HCons<T10, HCons<T11, HCons<T12, HCons<T13, HCons<T14, HCons<T15, HCons<T16, HCons<T17, HCons<T18, HCons<T19, HCons<T20, HCons<T21, HCons<T22, HCons<T23, HCons<T24, HCons<T25, HCons<T26, HCons<T27, HCons<T28, HNil>>>>>>>>>>>>>>>>>>>>>>>>>>>>>, B> for (V0, V1, V2, V3, V4, V5, V6, V7, V8, V9, V10, V11, V12, V13, V14, V15, V16, V17, V18, V19, V20, V21, V22, V23, V24, V25, V26, V27, V28) where
    (V0, V1, V2, V3, V4, V5, V6, V7, V8, V9, V10, V11, V12, V13, V14, V15): PreparedParamValues<HCons<T0, HCons<T1, HCons<T2, HCons<T3, HCons<T4, HCons<T5, HCons<T6, HCons<T7, HCons<T8, HCons<T9, HCons<T10, HCons<T11, HCons<T12, HCons<T13, HCons<T14, HCons<T15, HNil>>>>>>>>>>>>>>>>, B>,
    (V16, V17, V18, V19, V20, V21, V22, V23, V24, V25, V26, V27, V28): PreparedParamValues<HCons<T16, HCons<T17, HCons<T18, HCons<T19, HCons<T20, HCons<T21, HCons<T22, HCons<T23, HCons<T24, HCons<T25, HCons<T26, HCons<T27, HCons<T28, HNil>>>>>>>>>>>>>, B>,
 {
    open spec fn all_encoded(&self, result: Result<List<B::Param>, B::Error>) -> bool {
        let front = (self.0, self.1, self.2, self.3, self.4, self.5, self.6, self.7, self.8, self.9, self.10, self.11, self.12, self.13, self.14, self.15);
        let back = (self.16, self.17, self.18, self.19, self.20, self.21, self.22, self.23, self.24, self.25, self.26, self.27, self.28);
        exists|first: Result<List<B::Param>, B::Error>, rest: Result<List<B::Param>, B::Error>|
            {
                &&& #[trigger] <(V0, V1, V2, V3, V4, V5, V6, V7, V8, V9, V10, V11, V12, V13, V14, V15) as PreparedParamValues<HCons<T0, HCons<T1, HCons<T2, HCons<T3, HCons<T4, HCons<T5, HCons<T6, HCons<T7, HCons<T8, HCons<T9, HCons<T10, HCons<T11, HCons<T12, HCons<T13, HCons<T14, HCons<T15, HNil>>>>>>>>>>>>>>>>, B>>::all_encoded(&front, first)
                &&& #[trigger] <(V16, V17, V18, V19, V20, V21, V22, V23, V24, V25, V26, V27, V28) as PreparedParamValues<HCons<T16, HCons<T17, HCons<T18, HCons<T19, HCons<T20, HCons<T21, HCons<T22, HCons<T23, HCons<T24, HCons<T25, HCons<T26, HCons<T27, HCons<T28, HNil>>>>>>>>>>>>>, B>>::all_encoded(&back, rest)
                &&& result == crate::params::joined(first, rest)
            }
    }

    open spec fn one_encoded(&self, index: usize, result: Result<Option<List<B::Param>>, B::Error>) -> bool {
        let front = (self.0, self.1, self.2, self.3, self.4, self.5, self.6, self.7, self.8, self.9, self.10, self.11, self.12, self.13, self.14, self.15);
        let back = (self.16, self.17, self.18, self.19, self.20, self.21, self.22, self.23, self.24, self.25, self.26, self.27, self.28);
        if index < 16 {
            <(V0, V1, V2, V3, V4, V5, V6, V7, V8, V9, V10, V11, V12, V13, V14, V15) as PreparedParamValues<HCons<T0, HCons<T1, HCons<T2, HCons<T3, HCons<T4, HCons<T5, HCons<T6, HCons<T7, HCons<T8, HCons<T9, HCons<T10, HCons<T11, HCons<T12, HCons<T13, HCons<T14, HCons<T15, HNil>>>>>>>>>>>>>>>>, B>>::one_encoded(&front, index, result)
        } else {
            <(V16, V17, V18, V19, V20, V21, V22, V23, V24, V25, V26, V27, V28) as PreparedParamValues<HCons<T16, HCons<T17, HCons<T18, HCons<T19, HCons<T20, HCons<T21, HCons<T22, HCons<T23, HCons<T24, HCons<T25, HCons<T26, HCons<T27, HCons<T28, HNil>>>>>>>>>>>>>, B>>::one_encoded(&back, (index - 16) as usize, result)
        }
    }

    fn write_params(&self) -> (result: Result<List<B::Param>, B::Error>) {
        let front = (self.0.duplicate(), self.1.duplicate(), self.2.duplicate(), self.3.duplicate(), self.4.duplicate(), self.5.duplicate(), self.6.duplicate(), self.7.duplicate(), self.8.duplicate(), self.9.duplicate(), self.10.duplicate(), self.11.duplicate(), self.12.duplicate(), self.13.duplicate(), self.14.duplicate(), self.15.duplicate());
        let back = (self.16.duplicate(), self.17.duplicate(), self.18.duplicate(), self.19.duplicate(), self.20.duplicate(), self.21.duplicate(), self.22.duplicate(), self.23.duplicate(), self.24.duplicate(), self.25.duplicate(), self.26.duplicate(), self.27.duplicate(), self.28.duplicate());
        let first = <(V0, V1, V2, V3, V4, V5, V6, V7, V8, V9, V10, V11, V12, V13, V14, V15) as PreparedParamValues<HCons<T0, HCons<T1, HCons<T2, HCons<T3, HCons<T4, HCons<T5, HCons<T6, HCons<T7, HCons<T8, HCons<T9, HCons<T10, HCons<T11, HCons<T12, HCons<T13, HCons<T14, HCons<T15, HNil>>>>>>>>>>>>>>>>, B>>::write_params(&front);
        let rest = <(V16, V17, V18, V19, V20, V21, V22, V23, V24, V25, V26, V27, V28) as PreparedParamValues<HCons<T16, HCons<T17, HCons<T18, HCons<T19, HCons<T20, HCons<T21, HCons<T22, HCons<T23, HCons<T24, HCons<T25, HCons<T26, HCons<T27, HCons<T28, HNil>>>>>>>>>>>>>, B>>::write_params(&back);
        join(first, rest)
    }

    fn write_param_at(&self, index: usize) -> (result: Result<Option<List<B::Param>>, B::Error>) {
        if index < 16 {
            let front = (self.0.duplicate(), self.1.duplicate(), self.2.duplicate(), self.3.duplicate(), self.4.duplicate(), self.5.duplicate(), self.6.duplicate(), self.7.duplicate(), self.8.duplicate(), self.9.duplicate(), self.10.duplicate(), self.11.duplicate(), self.12.duplicate(), self.13.duplicate(), self.14.duplicate(), self.15.duplicate());
            <(V0, V1, V2, V3, V4, V5, V6, V7, V8, V9, V10, V11, V12, V13, V14, V15) as PreparedParamValues<HCons<T0, HCons<T1, HCons<T2, HCons<T3, HCons<T4, HCons<T5, HCons<T6, HCons<T7, HCons<T8, HCons<T9, HCons<T10, HCons<T11, HCons<T12, HCons<T13, HCons<T14, HCons<T15, HNil>>>>>>>>>>>>>>>>, B>>::write_param_at(&front, index)
        } else {
            let back = (self.16.duplicate(), self.17.duplicate(), self.18.duplicate(), self.19.duplicate(), self.20.duplicate(), self.21.duplicate(), self.22.duplicate(), self.23.duplicate(), self.24.duplicate(), self.25.duplicate(), self.26.duplicate(), self.27.duplicate(), self.28.duplicate());
            <(V16, V17, V18, V19, V20, V21, V22, V23, V24, V25, V26, V27, V28) as PreparedParamValues<HCons<T16, HCons<T17, HCons<T18, HCons<T19, HCons<T20, HCons<T21, HCons<T22, HCons<T23, HCons<T24, HCons<T25, HCons<T26, HCons<T27, HCons<T28, HNil>>>>>>>>>>>>>, B>>::write_param_at(&back, index - 16)
        }
    }
}

impl<
    B: Backend,
    T0, T1, T2, T3, T4, T5, T6, T7, T8, T9, T10, T11, T12, T13, T14, T15, T16, T17, T18, T19, T20, T21, T22, T23, T24, T25, T26, T27, T28, T29,
    V0: Duplicate, V1: Duplicate, V2: Duplicate, V3: Duplicate, V4: Duplicate, V5: Duplicate, V6: Duplicate, V7: Duplicate, V8: Duplicate, V9: Duplicate, V10: Duplicate, V11: Duplicate, V12: Duplicate, V13: Duplicate, V14: Duplicate, V15: Duplicate, V16: Duplicate, V17: Duplicate, V18: Duplicate, V19: Duplicate, V20: Duplicate, V21: Duplicate, V22: Duplicate, V23: Duplicate, V24: Duplicate, V25: Duplicate, V26: Duplicate, V27: Duplicate, V28: Duplicate, V29: Duplicate,
> PreparedParamValues<HCons<T0, HCons<T1, HCons<T2, HCons<T3, HCons<T4, HCons<T5, HCons<T6, HCons<T7, HCons<T8, HCons<T9, HCons<T10, HCons<T11, HCons<T12, HCons<T13, HCons<T14, HCons<T15, HCons<T16, HCons<T17, HCons<T18, HCons<T19, HCons<T20, HCons<T21, HCons<T22, HCons<T23, HCons<T24, HCons<T25, HCons<T26, HCons<T27, HCons<T28, HCons<T29, HNil>>>>>>>>>>>>>>>>>>>>>>>>>>>>>>, B> for (V0, V1, V2, V3, V4, V5, V6, V7, V8, V9, V10, V11, V12, V13, V14, V15, V16, V17, V18, V19, V20, V21, V22, V23, V24, V25, V26, V27, V28, V29) where
    (V0, V1, V2, V3, V4, V5, V6, V7, V8, V9, V10, V11, V12, V13, V14, V15): PreparedParamValues<HCons<T0, HCons<T1, HCons<T2, HCons<T3, HCons<T4, HCons<T5, HCons<T6, HCons<T7, HCons<T8, HCons<T9, HCons<T10, HCons<T11, HCons<T12, HCons<T13, HCons<T14, HCons<T15, HNil>>>>>>>>>>>>>>>>, B>,
    (V16, V17, V18, V19, V20, V21, V22, V23, V24, V25, V26, V27, V28, V29): PreparedParamValues<HCons<T16, HCons<T17, HCons<T18, HCons<T19, HCons<T20, HCons<T21, HCons<T22, HCons<T23, HCons<T24, HCons<T25, HCons<T26, HCons<T27, HCons<T28, HCons<T29, HNil>>>>>>>>>>>>>>, B>,
 {
    open spec fn all_encoded(&self, result: Result<List<B::Param>, B::Error>) -> bool {
        let front = (self.0, self.1, self.2, self.3, self.4, self.5, self.6, self.7, self.8, self.9, self.10, self.11, self.12, self.13, self.14, self.15);
        let back = (self.16, self.17, self.18, self.19, self.20, self.21, self.22, self.23, self.24, self.25, self.26, self.27, self.28, self.29);
        exists|first: Result<List<B::Param>, B::Error>, rest: Result<List<B::Param>, B::Error>|
            {
                &&& #[trigger] <(V0, V1, V2, V3, V4, V5, V6, V7, V8, V9, V10, V11, V12, V13, V14, V15) as PreparedParamValues<HCons<T0, HCons<T1, HCons<T2, HCons<T3, HCons<T4, HCons<T5, HCons<T6, HCons<T7, HCons<T8, HCons<T9, HCons<T10, HCons<T11, HCons<T12, HCons<T13, HCons<T14, HCons<T15, HNil>>>>>>>>>>>>>>>>, B>>::all_encoded(&front, first)
                &&& #[trigger] <(V16, V17, V18, V19, V20, V21, V22, V23, V24, V25, V26, V27, V28, V29) as PreparedParamValues<HCons<T16, HCons<T17, HCons<T18, HCons<T19, HCons<T20, HCons<T21, HCons<T22, HCons<T23, HCons<T24, HCons<T25, HCons<T26, HCons<T27, HCons<T28, HCons<T29, HNil>>>>>>>>>>>>>>, B>>::all_encoded(&back, rest)
                &&& result == crate::params::joined(first, rest)
            }
    }

    open spec fn one_encoded(&self, index: usize, result: Result<Option<List<B::Param>>, B::Error>) -> bool {
        let front = (self.0, self.1, self.2, self.3, self.4, self.5, self.6, self.7, self.8, self.9, self.10, self.11, self.12, self.13, self.14, self.15);
        let back = (self.16, self.17, self.18, self.19, self.20, self.21, self.22, self.23, self.24, self.25, self.26, self.27, self.28, self.29);
        if index < 16 {
            <(V0, V1, V2, V3, V4, V5, V6, V7, V8, V9, V10, V11, V12, V13, V14, V15) as PreparedParamValues<HCons<T0, HCons<T1, HCons<T2, HCons<T3, HCons<T4, HCons<T5, HCons<T6, HCons<T7, HCons<T8, HCons<T9, HCons<T10, HCons<T11, HCons<T12, HCons<T13, HCons<T14, HCons<T15, HNil>>>>>>>>>>>>>>>>, B>>::one_encoded(&front, index, result)
        } else {
            <(V16, V17, V18, V19, V20, V21, V22, V23, V24, V25, V26, V27, V28, V29) as PreparedParamValues<HCons<T16, HCons<T17, HCons<T18, HCons<T19, HCons<T20, HCons<T21, HCons<T22, HCons<T23, HCons<T24, HCons<T25, HCons<T26, HCons<T27, HCons<T28, HCons<T29, HNil>>>>>>>>>>>>>>, B>>::one_encoded(&back, (index - 16) as usize, result)
        }
    }

    fn write_params(&self) -> (result: Result<List<B::Param>, B::Error>) {
        let front = (self.0.duplicate(), self.1.duplicate(), self.2.duplicate(), self.3.duplicate(), self.4.duplicate(), self.5.duplicate(), self.6.duplicate(), self.7.duplicate(), self.8.duplicate(), self.9.duplicate(), self.10.duplicate(), self.11.duplicate(), self.12.duplicate(), self.13.duplicate(), self.14.duplicate(), self.15.duplicate());
        let back = (self.16.duplicate(), self.17.duplicate(), self.18.duplicate(), self.19.duplicate(), self.20.duplicate(), self.21.duplicate(), self.22.duplicate(), self.23.duplicate(), self.24.duplicate(), self.25.duplicate(), self.26.duplicate(), self.27.duplicate(), self.28.duplicate(), self.29.duplicate());
        let first = <(V0, V1, V2, V3, V4, V5, V6, V7, V8, V9, V10, V11, V12, V13, V14, V15) as PreparedParamValues<HCons<T0, HCons<T1, HCons<T2, HCons<T3, HCons<T4, HCons<T5, HCons<T6, HCons<T7, HCons<T8, HCons<T9, HCons<T10, HCons<T11, HCons<T12, HCons<T13, HCons<T14, HCons<T15, HNil>>>>>>>>>>>>>>>>, B>>::write_params(&front);
        let rest = <(V16, V17, V18, V19, V20, V21, V22, V23, V24, V25, V26, V27, V28, V29) as PreparedParamValues<HCons<T16, HCons<T17, HCons<T18, HCons<T19, HCons<T20, HCons<T21, HCons<T22, HCons<T23, HCons<T24, HCons<T25, HCons<T26, HCons<T27, HCons<T28, HCons<T29, HNil>>>>>>>>>>>>>>, B>>::write_params(&back);
        join(first, rest)
    }

    fn write_param_at(&self, index: usize) -> (result: Result<Option<List<B::Param>>, B::Error>) {
        if index < 16 {
            let front = (self.0.duplicate(), self.1.duplicate(), self.2.duplicate(), self.3.duplicate(), self.4.duplicate(), self.5.duplicate(), self.6.duplicate(), self.7.duplicate(), self.8.duplicate(), self.9.duplicate(), self.10.duplicate(), self.11.duplicate(), self.12.duplicate(), self.13.duplicate(), self.14.duplicate(), self.15.duplicate());
            <(V0, V1, V2, V3, V4, V5, V6, V7, V8, V9, V10, V11, V12, V13, V14, V15) as PreparedParamValues<HCons<T0, HCons<T1, HCons<T2, HCons<T3, HCons<T4, HCons<T5, HCons<T6, HCons<T7, HCons<T8, HCons<T9, HCons<T10, HCons<T11, HCons<T12, HCons<T13, HCons<T14, HCons<T15, HNil>>>>>>>>>>>>>>>>, B>>::write_param_at(&front, index)
        } else {
            let back = (self.16.duplicate(), self.17.duplicate(), self.18.duplicate(), self.19.duplicate(), self.20.duplicate(), self.21.duplicate(), self.22.duplicate(), self.23.duplicate(), self.24.duplicate(), self.25.duplicate(), self.26.duplicate(), self.27.duplicate(), self.28.duplicate(), self.29.duplicate());
            <(V16, V17, V18, V19, V20, V21, V22, V23, V24, V25, V26, V27, V28, V29) as PreparedParamValues<HCons<T16, HCons<T17, HCons<T18, HCons<T19, HCons<T20, HCons<T21, HCons<T22, HCons<T23, HCons<T24, HCons<T25, HCons<T26, HCons<T27, HCons<T28, HCons<T29, HNil>>>>>>>>>>>>>>, B>>::write_param_at(&back, index - 16)
        }
    }
}

impl<
    B: Backend,
    T0, T1, T2, T3, T4, T5, T6, T7, T8, T9, T10, T11, T12, T13, T14, T15, T16, T17, T18, T19, T20, T21, T22, T23, T24, T25, T26, T27, T28, T29, T30,
    V0: Duplicate, V1: Duplicate, V2: Duplicate, V3: Duplicate, V4: Duplicate, V5: Duplicate, V6: Duplicate, V7: Duplicate, V8: Duplicate, V9: Duplicate, V10: Duplicate, V11: Duplicate, V12: Duplicate, V13: Duplicate, V14: Duplicate, V15: Duplicate, V16: Duplicate, V17: Duplicate, V18: Duplicate, V19: Duplicate, V20: Duplicate, V21: Duplicate, V22: Duplicate, V23: Duplicate, V24: Duplicate, V25: Duplicate, V26: Duplicate, V27: Duplicate, V28: Duplicate, V29: Duplicate, V30: Duplicate,
> PreparedParamValues<HCons<T0, HCons<T1, HCons<T2, HCons<T3, HCons<T4, HCons<T5, HCons<T6, HCons<T7, HCons<T8, HCons<T9, HCons<T10, HCons<T11, HCons<T12, HCons<T13, HCons<T14, HCons<T15, HCons<T16, HCons<T17, HCons<T18, HCons<T19, HCons<T20, HCons<T21, HCons<T22, HCons<T23, HCons<T24, HCons<T25, HCons<T26, HCons<T27, HCons<T28, HCons<T29, HCons<T30, HNil>>>>>>>>>>>>>>>>>>>>>>>>>>>>>>>, B> for (V0, V1, V2, V3, V4, V5, V6, V7, V8, V9, V10, V11, V12, V13, V14, V15, V16, V17, V18, V19, V20, V21, V22, V23, V24, V25, V26, V27, V28, V29, V30) where
    (V0, V1, V2, V3, V4, V5, V6, V7, V8, V9, V10, V11, V12, V13, V14, V15): PreparedParamValues<HCons<T0, HCons<T1, HCons<T2, HCons<T3, HCons<T4, HCons<T5, HCons<T6, HCons<T7, HCons<T8, HCons<T9, HCons<T10, HCons<T11, HCons<T12, HCons<T13, HCons<T14, HCons<T15, HNil>>>>>>>>>>>>>>>>, B>,
    (V16, V17, V18, V19, V20, V21, V22, V23, V24, V25, V26, V27, V28, V29, V30): PreparedParamValues<HCons<T16, HCons<T17, HCons<T18, HCons<T19, HCons<T20, HCons<T21, HCons<T22, HCons<T23, HCons<T24, HCons<T25, HCons<T26, HCons<T27, HCons<T28, HCons<T29, HCons<T30, HNil>>>>>>>>>>>>>>>, B>,
 {
    open spec fn all_encoded(&self, result: Result<List<B::Param>, B::Error>) -> bool {
        let front = (self.0, self.1, self.2, self.3, self.4, self.5, self.6, self.7, self.8, self.9, self.10, self.11, self.12, self.13, self.14, self.15);
        let back = (self.16, self.17, self.18, self.19, self.20, self.21, self.22, self.23, self.24, self.25, self.26, self.27, self.28, self.29, self.30);
        exists|first: Result<List<B::Param>, B::Error>, rest: Result<List<B::Param>, B::Error>|
            {
                &&& #[trigger] <(V0, V1, V2, V3, V4, V5, V6, V7, V8, V9, V10, V11, V12, V13, V14, V15) as PreparedParamValues<HCons<T0, HCons<T1, HCons<T2, HCons<T3, HCons<T4, HCons<T5, HCons<T6, HCons<T7, HCons<T8, HCons<T9, HCons<T10, HCons<T11, HCons<T12, HCons<T13, HCons<T14, HCons<T15, HNil>>>>>>>>>>>>>>>>, B>>::all_encoded(&front, first)
                &&& #[trigger] <(V16, V17, V18, V19, V20, V21, V22, V23, V24, V25, V26, V27, V28, V29, V30) as PreparedParamValues<HCons<T16, HCons<T17, HCons<T18, HCons<T19, HCons<T20, HCons<T21, HCons<T22, HCons<T23, HCons<T24, HCons<T25, HCons<T26, HCons<T27, HCons<T28, HCons<T29, HCons<T30, HNil>>>>>>>>>>>>>>>, B>>::all_encoded(&back, rest)
                &&& result == crate::params::joined(first, rest)
            }
    }

    open spec fn one_encoded(&self, index: usize, result: Result<Option<List<B::Param>>, B::Error>) -> bool {
        let front = (self.0, self.1, self.2, self.3, self.4, self.5, self.6, self.7, self.8, self.9, self.10, self.11, self.12, self.13, self.14, self.15);
        let back = (self.16, self.17, self.18, self.19, self.20, self.21, self.22, self.23, self.24, self.25, self.26, self.27, self.28, self.29, self.30);
        if index < 16 {
            <(V0, V1, V2, V3, V4, V5, V6, V7, V8, V9, V10, V11, V12, V13, V14, V15) as PreparedParamValues<HCons<T0, HCons<T1, HCons<T2, HCons<T3, HCons<T4, HCons<T5, HCons<T6, HCons<T7, HCons<T8, HCons<T9, HCons<T10, HCons<T11, HCons<T12, HCons<T13, HCons<T14, HCons<T15, HNil>>>>>>>>>>>>>>>>, B>>::one_encoded(&front, index, result)
        } else {
            <(V16, V17, V18, V19, V20, V21, V22, V23, V24, V25, V26, V27, V28, V29, V30) as PreparedParamValues<HCons<T16, HCons<T17, HCons<T18, HCons<T19, HCons<T20, HCons<T21, HCons<T22, HCons<T23, HCons<T24, HCons<T25, HCons<T26, HCons<T27, HCons<T28, HCons<T29, HCons<T30, HNil>>>>>>>>>>>>>>>, B>>::one_encoded(&back, (index - 16) as usize, result)
        }
    }

    fn write_params(&self) -> (result: Result<List<B::Param>, B::Error>) {
        let front = (self.0.duplicate(), self.1.duplicate(), self.2.duplicate(), self.3.duplicate(), self.4.duplicate(), self.5.duplicate(), self.6.duplicate(), self.7.duplicate(), self.8.duplicate(), self.9.duplicate(), self.10.duplicate(), self.11.duplicate(), self.12.duplicate(), self.13.duplicate(), self.14.duplicate(), self.15.duplicate());
        let back = (self.16.duplicate(), self.17.duplicate(), self.18.duplicate(), self.19.duplicate(), self.20.duplicate(), self.21.duplicate(), self.22.duplicate(), self.23.duplicate(), self.24.duplicate(), self.25.duplicate(), self.26.duplicate(), self.27.duplicate(), self.28.duplicate(), self.29.duplicate(), self.30.duplicate());
        let first = <(V0, V1, V2, V3, V4, V5, V6, V7, V8, V9, V10, V11, V12, V13, V14, V15) as PreparedParamValues<HCons<T0, HCons<T1, HCons<T2, HCons<T3, HCons<T4, HCons<T5, HCons<T6, HCons<T7, HCons<T8, HCons<T9, HCons<T10, HCons<T11, HCons<T12, HCons<T13, HCons<T14, HCons<T15, HNil>>>>>>>>>>>>>>>>, B>>::write_params(&front);
        let rest = <(V16, V17, V18, V19, V20, V21, V22, V23, V24, V25, V26, V27, V28, V29, V30) as PreparedParamValues<HCons<T16, HCons<T17, HCons<T18, HCons<T19, HCons<T20, HCons<T21, HCons<T22, HCons<T23, HCons<T24, HCons<T25, HCons<T26, HCons<T27, HCons<T28, HCons<T29, HCons<T30, HNil>>>>>>>>>>>>>>>, B>>::write_params(&back);
        join(first, rest)
    }

    fn write_param_at(&self, index: usize) -> (result: Result<Option<List<B::Param>>, B::Error>) {
        if index < 16 {
            let front = (self.0.duplicate(), self.1.duplicate(), self.2.duplicate(), self.3.duplicate(), self.4.duplicate(), self.5.duplicate(), self.6.duplicate(), self.7.duplicate(), self.8.duplicate(), self.9.duplicate(), self.10.duplicate(), self.11.duplicate(), self.12.duplicate(), self.13.duplicate(), self.14.duplicate(), self.15.duplicate());
            <(V0, V1, V2, V3, V4, V5, V6, V7, V8, V9, V10, V11, V12, V13, V14, V15) as PreparedParamValues<HCons<T0, HCons<T1, HCons<T2, HCons<T3, HCons<T4, HCons<T5, HCons<T6, HCons<T7, HCons<T8, HCons<T9, HCons<T10, HCons<T11, HCons<T12, HCons<T13, HCons<T14, HCons<T15, HNil>>>>>>>>>>>>>>>>, B>>::write_param_at(&front, index)
        } else {
            let back = (self.16.duplicate(), self.17.duplicate(), self.18.duplicate(), self.19.duplicate(), self.20.duplicate(), self.21.duplicate(), self.22.duplicate(), self.23.duplicate(), self.24.duplicate(), self.25.duplicate(), self.26.duplicate(), self.27.duplicate(), self.28.duplicate(), self.29.duplicate(), self.30.duplicate());
            <(V16, V17, V18, V19, V20, V21, V22, V23, V24, V25, V26, V27, V28, V29, V30) as PreparedParamValues<HCons<T16, HCons<T17, HCons<T18, HCons<T19, HCons<T20, HCons<T21, HCons<T22, HCons<T23, HCons<T24, HCons<T25, HCons<T26, HCons<T27, HCons<T28, HCons<T29, HCons<T30, HNil>>>>>>>>>>>>>>>, B>>::write_param_at(&back, index - 16)
        }
    }
}

impl<
    B: Backend,
    T0, T1, T2, T3, T4, T5, T6, T7, T8, T9, T10, T11, T12, T13, T14, T15, T16, T17, T18, T19, T20, T21, T22, T23, T24, T25, T26, T27, T28, T29, T30, T31,
    V0: Duplicate, V1: Duplicate, V2: Duplicate, V3: Duplicate, V4: Duplicate, V5: Duplicate, V6: Duplicate, V7: Duplicate, V8: Duplicate, V9: Duplicate, V10: Duplicate, V11: Duplicate, V12: Duplicate, V13: Duplicate, V14: Duplicate, V15: Duplicate, V16: Duplicate, V17: Duplicate, V18: Duplicate, V19: Duplicate, V20: Duplicate, V21: Duplicate, V22: Duplicate, V23: Duplicate, V24: Duplicate, V25: Duplicate, V26: Duplicate, V27: Duplicate, V28: Duplicate, V29: Duplicate, V30: Duplicate, V31: Duplicate,
> PreparedParamValues<HCons<T0, HCons<T1, HCons<T2, HCons<T3, HCons<T4, HCons<T5, HCons<T6, HCons<T7, HCons<T8, HCons<T9, HCons<T10, HCons<T11, HCons<T12, HCons<T13, HCons<T14, HCons<T15, HCons<T16, HCons<T17, HCons<T18, HCons<T19, HCons<T20, HCons<T21, HCons<T22, HCons<T23, HCons<T24, HCons<T25, HCons<T26, HCons<T27, HCons<T28, HCons<T29, HCons<T30, HCons<T31, HNil>>>>>>>>>>>>>>>>>>>>>>>>>>>>>>>>, B> for (V0, V1, V2, V3, V4, V5, V6, V7, V8, V9, V10, V11, V12, V13, V14, V15, V16, V17, V18, V19, V20, V21, V22, V23, V24, V25, V26, V27, V28, V29, V30, V31) where
    (V0, V1, V2, V3, V4, V5, V6, V7, V8, V9, V10, V11, V12, V13, V14, V15): PreparedParamValues<HCons<T0, HCons<T1, HCons<T2, HCons<T3, HCons<T4, HCons<T5, HCons<T6, HCons<T7, HCons<T8, HCons<T9, HCons<T10, HCons<T11, HCons<T12, HCons<T13, HCons<T14, HCons<T15, HNil>>>>>>>>>>>>>>>>, B>,
    (V16, V17, V18, V19, V20, V21, V22, V23, V24, V25, V26, V27, V28, V29, V30, V31): PreparedParamValues<HCons<T16, HCons<T17, HCons<T18, HCons<T19, HCons<T20, HCons<T21, HCons<T22, HCons<T23, HCons<T24, HCons<T25, HCons<T26, HCons<T27, HCons<T28, HCons<T29, HCons<T30, HCons<T31, HNil>>>>>>>>>>>>>>>>, B>,
 {
    open spec fn all_encoded(&self, result: Result<List<B::Param>, B::Error>) -> bool {
        let front = (self.0, self.1, self.2, self.3, self.4, self.5, self.6, self.7, self.8, self.9, self.10, self.11, self.12, self.13, self.14, self.15);
        let back = (self.16, self.17, self.18, self.19, self.20, self.21, self.22, self.23, self.24, self.25, self.26, self.27, self.28, self.29, self.30, self.31);
        exists|first: Result<List<B::Param>, B::Error>, rest: Result<List<B::Param>, B::Error>|
            {
                &&& #[trigger] <(V0, V1, V2, V3, V4, V5, V6, V7, V8, V9, V10, V11, V12, V13, V14, V15) as PreparedParamValues<HCons<T0, HCons<T1, HCons<T2, HCons<T3, HCons<T4, HCons<T5, HCons<T6, HCons<T7, HCons<T8, HCons<T9, HCons<T10, HCons<T11, HCons<T12, HCons<T13, HCons<T14, HCons<T15, HNil>>>>>>>>>>>>>>>>, B>>::all_encoded(&front, first)
                &&& #[trigger] <(V16, V17, V18, V19, V20, V21, V22, V23, V24, V25, V26, V27, V28, V29, V30, V31) as PreparedParamValues<HCons<T16, HCons<T17, HCons<T18, HCons<T19, HCons<T20, HCons<T21, HCons<T22, HCons<T23, HCons<T24, HCons<T25, HCons<T26, HCons<T27, HCons<T28, HCons<T29, HCons<T30, HCons<T31, HNil>>>>>>>>>>>>>>>>, B>>::all_encoded(&back, rest)
                &&& result == crate::params::joined(first, rest)
            }
    }

    open spec fn one_encoded(&self, index: usize, result: Result<Option<List<B::Param>>, B::Error>) -> bool {
        let front = (self.0, self.1, self.2, self.3, self.4, self.5, self.6, self.7, self.8, self.9, self.10, self.11, self.12, self.13, self.14, self.15);
        let back = (self.16, self.17, self.18, self.19, self.20, self.21, self.22, self.23, self.24, self.25, self.26, self.27, self.28, self.29, self.30, self.31);
        if index < 16 {
            <(V0, V1, V2, V3, V4, V5, V6, V7, V8, V9, V10, V11, V12, V13, V14, V15) as PreparedParamValues<HCons<T0, HCons<T1, HCons<T2, HCons<T3, HCons<T4, HCons<T5, HCons<T6, HCons<T7, HCons<T8, HCons<T9, HCons<T10, HCons<T11, HCons<T12, HCons<T13, HCons<T14, HCons<T15, HNil>>>>>>>>>>>>>>>>, B>>::one_encoded(&front, index, result)
        } else {
            <(V16, V17, V18, V19, V20, V21, V22, V23, V24, V25, V26, V27, V28, V29, V30, V31) as PreparedParamValues<HCons<T16, HCons<T17, HCons<T18, HCons<T19, HCons<T20, HCons<T21, HCons<T22, HCons<T23, HCons<T24, HCons<T25, HCons<T26, HCons<T27, HCons<T28, HCons<T29, HCons<T30, HCons<T31, HNil>>>>>>>>>>>>>>>>, B>>::one_encoded(&back, (index - 16) as usize, result)
        }
    }

    fn write_params(&self) -> (result: Result<List<B::Param>, B::Error>) {
        let front = (self.0.duplicate(), self.1.duplicate(), self.2.duplicate(), self.3.duplicate(), self.4.duplicate(), self.5.duplicate(), self.6.duplicate(), self.7.duplicate(), self.8.duplicate(), self.9.duplicate(), self.10.duplicate(), self.11.duplicate(), self.12.duplicate(), self.13.duplicate(), self.14.duplicate(), self.15.duplicate());
        let back = (self.16.duplicate(), self.17.duplicate(), self.18.duplicate(), self.19.duplicate(), self.20.duplicate(), self.21.duplicate(), self.22.duplicate(), self.23.duplicate(), self.24.duplicate(), self.25.duplicate(), self.26.duplicate(), self.27.duplicate(), self.28.duplicate(), self.29.duplicate(), self.30.duplicate(), self.31.duplicate());
        let first = <(V0, V1, V2, V3, V4, V5, V6, V7, V8, V9, V10, V11, V12, V13, V14, V15) as PreparedParamValues<HCons<T0, HCons<T1, HCons<T2, HCons<T3, HCons<T4, HCons<T5, HCons<T6, HCons<T7, HCons<T8, HCons<T9, HCons<T10, HCons<T11, HCons<T12, HCons<T13, HCons<T14, HCons<T15, HNil>>>>>>>>>>>>>>>>, B>>::write_params(&front);
        let rest = <(V16, V17, V18, V19, V20, V21, V22, V23, V24, V25, V26, V27, V28, V29, V30, V31) as PreparedParamValues<HCons<T16, HCons<T17, HCons<T18, HCons<T19, HCons<T20, HCons<T21, HCons<T22, HCons<T23, HCons<T24, HCons<T25, HCons<T26, HCons<T27, HCons<T28, HCons<T29, HCons<T30, HCons<T31, HNil>>>>>>>>>>>>>>>>, B>>::write_params(&back);
        join(first, rest)
    }

    fn write_param_at(&self, index: usize) -> (result: Result<Option<List<B::Param>>, B::Error>) {
        if index < 16 {
            let front = (self.0.duplicate(), self.1.duplicate(), self.2.duplicate(), self.3.duplicate(), self.4.duplicate(), self.5.duplicate(), self.6.duplicate(), self.7.duplicate(), self.8.duplicate(), self.9.duplicate(), self.10.duplicate(), self.11.duplicate(), self.12.duplicate(), self.13.duplicate(), self.14.duplicate(), self.15.duplicate());
            <(V0, V1, V2, V3, V4, V5, V6, V7, V8, V9, V10, V11, V12, V13, V14, V15) as PreparedParamValues<HCons<T0, HCons<T1, HCons<T2, HCons<T3, HCons<T4, HCons<T5, HCons<T6, HCons<T7, HCons<T8, HCons<T9, HCons<T10, HCons<T11, HCons<T12, HCons<T13, HCons<T14, HCons<T15, HNil>>>>>>>>>>>>>>>>, B>>::write_param_at(&front, index)
        } else {
            let back = (self.16.duplicate(), self.17.duplicate(), self.18.duplicate(), self.19.duplicate(), self.20.duplicate(), self.21.duplicate(), self.22.duplicate(), self.23.duplicate(), self.24.duplicate(), self.25.duplicate(), self.26.duplicate(), self.27.duplicate(), self.28.duplicate(), self.29.duplicate(), self.30.duplicate(), self.31.duplicate());
            <(V16, V17, V18, V19, V20, V21, V22, V23, V24, V25, V26, V27, V28, V29, V30, V31) as PreparedParamValues<HCons<T16, HCons<T17, HCons<T18, HCons<T19, HCons<T20, HCons<T21, HCons<T22, HCons<T23, HCons<T24, HCons<T25, HCons<T26, HCons<T27, HCons<T28, HCons<T29, HCons<T30, HCons<T31, HNil>>>>>>>>>>>>>>>>, B>>::write_param_at(&back, index - 16)
        }
    }
}

} // verus!
