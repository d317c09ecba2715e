//! The values that are supplied for the runtime parameters of a prepared statement.
use crate::backend::{Backend, Encode};
use crate::chain::List;
use crate::label::Duplicate;
use crate::list::{HCons, HList, HNil, IntoPreparedParam};
use vstd::prelude::*;

pub mod wide;

verus! {

/// Values for the parameters of a shape, encoded for a backend.
pub trait PreparedParamValues<Shape: HList, B: Backend> {
    /// Whether `result` is what encoding all values gives: their parameters in order, or the first
    /// error.
    spec fn all_encoded(&self, result: Result<List<B::Param>, B::Error>) -> bool;

    /// Whether `result` is what encoding the value at `index` gives: nothing where there is none.
    spec fn one_encoded(&self, index: usize, result: Result<Option<List<B::Param>>, B::Error>) -> bool;

    fn write_params(&self) -> (result: Result<List<B::Param>, B::Error>)
        ensures
            self.all_encoded(result),
    ;

    fn write_param_at(&self, index: usize) -> (result: Result<Option<List<B::Param>>, B::Error>)
        ensures
            self.one_encoded(index, result),
    ;
}

/// The parameters of a value and of those behind it, or the first error.
pub open spec fn joined<P, E>(
    first: Result<List<P>, E>,
    rest: Result<List<P>, E>,
) -> Result<List<P>, E> {
    match first {
        Ok(params) => match rest {
            Ok(more) => Ok(params.then_list(more)),
            Err(error) => Err(error),
        },
        Err(error) => Err(error),
    }
}

pub(crate) fn join<P, E>(first: Result<List<P>, E>, rest: Result<List<P>, E>) -> (result: Result<List<P>, E>)
    ensures
        result == joined(first, rest),
{
    match first {
        Ok(params) => match rest {
            Ok(more) => Ok(params.append(more)),
            Err(error) => Err(error),
        },
        Err(error) => Err(error),
    }
}

/// The parameters of one value that is there.
pub open spec fn present<P, E>(result: Result<List<P>, E>) -> Result<Option<List<P>>, E> {
    match result {
        Ok(params) => Ok(Some(params)),
        Err(error) => Err(error),
    }
}

pub(crate) fn given<P, E>(result: Result<List<P>, E>) -> (given: Result<Option<List<P>>, E>)
    ensures
        given == present(result),
{
    match result {
        Ok(params) => Ok(Some(params)),
        Err(error) => Err(error),
    }
}

/// Whether `result` is the encoding of what `value` becomes as a parameter of type `T`.
pub open spec fn encodes<B: Backend, T: Encode<B>, V: IntoPreparedParam<T>>(
    value: V,
    result: Result<List<B::Param>, B::Error>,
) -> bool {
    exists|param: T| #[trigger] value.becomes(param) && result == param.encoded()
}

pub(crate) fn encode_param<B: Backend, T: Encode<B>, V: IntoPreparedParam<T> + Duplicate>(value: &V) -> (result:
    Result<List<B::Param>, B::Error>)
    ensures
        encodes::<B, T, V>(*value, result),
{
    let param: T = value.duplicate().into_prepared_param();
    param.encode()
}

impl<B: Backend> PreparedParamValues<HNil, B> for () {
    open spec fn all_encoded(&self, result: Result<List<B::Param>, B::Error>) -> bool {
        result == Ok::<List<B::Param>, B::Error>(List::Nil)
    }

    open spec fn one_encoded(&self, index: usize, result: Result<Option<List<B::Param>>, B::Error>) -> bool {
        result == Ok::<Option<List<B::Param>>, B::Error>(None)
    }

    fn write_params(&self) -> (result: Result<List<B::Param>, B::Error>) {
        Ok(List::Nil)
    }

    fn write_param_at(&self, index: usize) -> (result: Result<Option<List<B::Param>>, B::Error>) {
        Ok(None)
    }
}

impl<
    B: Backend,
    T0: Encode<B>,
    V0: IntoPreparedParam<T0> + Duplicate,
> PreparedParamValues<HCons<T0, HNil>, B> for (V0,) {
    open spec fn all_encoded(&self, result: Result<List<B::Param>, B::Error>) -> bool {
        exists|r0: Result<List<B::Param>, B::Error>|
        {
            &&& #[trigger] encodes::<B, T0, V0>(self.0, r0)
            &&& result == joined(r0, Ok(List::Nil))
        }
    }

    open spec fn one_encoded(&self, index: usize, result: Result<Option<List<B::Param>>, B::Error>) -> bool {
            if index == 0 {
                exists|one: Result<List<B::Param>, B::Error>| #[trigger] encodes::<B, T0, V0>(self.0, one) && result == present(one)
            } else {
                result == Ok::<Option<List<B::Param>>, B::Error>(None)
            }
    }

    fn write_params(&self) -> (result: Result<List<B::Param>, B::Error>) {
        let r0 = encode_param::<B, T0, V0>(&self.0);
        join(r0, Ok(List::Nil))
    }

    fn write_param_at(&self, index: usize) -> (result: Result<Option<List<B::Param>>, B::Error>) {
        if index == 0 {
            given(encode_param::<B, T0, V0>(&self.0))
        } else {
            Ok(None)
        }
    }
}

impl<
    B: Backend,
    T0: Encode<B>,
    T1: Encode<B>,
    V0: IntoPreparedParam<T0> + Duplicate,
    V1: IntoPreparedParam<T1> + Duplicate,
> PreparedParamValues<HCons<T0, HCons<T1, HNil>>, B> for (V0, V1) {
    open spec fn all_encoded(&self, result: Result<List<B::Param>, B::Error>) -> bool {
        exists|r0: Result<List<B::Param>, B::Error>, r1: Result<List<B::Param>, B::Error>|
        {
            &&& #[trigger] encodes::<B, T0, V0>(self.0, r0)
            &&& #[trigger] encodes::<B, T1, V1>(self.1, r1)
            &&& result == joined(r0, joined(r1, Ok(List::Nil)))
        }
    }

    open spec fn one_encoded(&self, index: usize, result: Result<Option<List<B::Param>>, B::Error>) -> bool {
            if index == 0 {
                exists|one: Result<List<B::Param>, B::Error>| #[trigger] encodes::<B, T0, V0>(self.0, one) && result == present(one)
            } else if index == 1 {
                exists|one: Result<List<B::Param>, B::Error>| #[trigger] encodes::<B, T1, V1>(self.1, one) && result == present(one)
            } else {
                result == Ok::<Option<List<B::Param>>, B::Error>(None)
            }
    }

    fn write_params(&self) -> (result: Result<List<B::Param>, B::Error>) {
        let r0 = encode_param::<B, T0, V0>(&self.0);
        let r1 = encode_param::<B, T1, V1>(&self.1);
        join(r0, join(r1, Ok(List::Nil)))
    }

    fn write_param_at(&self, index: usize) -> (result: Result<Option<List<B::Param>>, B::Error>) {
        if index == 0 {
            given(encode_param::<B, T0, V0>(&self.0))
        } else if index == 1 {
            given(encode_param::<B, T1, V1>(&self.1))
        } else {
            Ok(None)
        }
    }
}

impl<
    B: Backend,
    T0: Encode<B>,
    T1: Encode<B>,
    T2: Encode<B>,
    V0: IntoPreparedParam<T0> + Duplicate,
    V1: IntoPreparedParam<T1> + Duplicate,
    V2: IntoPreparedParam<T2> + Duplicate,
> PreparedParamValues<HCons<T0, HCons<T1, HCons<T2, HNil>>>, B> for (V0, V1, V2) {
    open spec fn all_encoded(&self, result: Result<List<B::Param>, B::Error>) -> bool {
        exists|r0: Result<List<B::Param>, B::Error>, r1: Result<List<B::Param>, B::Error>, r2: Result<List<B::Param>, B::Error>|
        {
            &&& #[trigger] encodes::<B, T0, V0>(self.0, r0)
            &&& #[trigger] encodes::<B, T1, V1>(self.1, r1)
            &&& #[trigger] encodes::<B, T2, V2>(self.2, r2)
            &&& result == joined(r0, joined(r1, joined(r2, Ok(List::Nil))))
        }
    }

    open spec fn one_encoded(&self, index: usize, result: Result<Option<List<B::Param>>, B::Error>) -> bool {
            if index == 0 {
                exists|one: Result<List<B::Param>, B::Error>| #[trigger] encodes::<B, T0, V0>(self.0, one) && result == present(one)
            } else if index == 1 {
                exists|one: Result<List<B::Param>, B::Error>| #[trigger] encodes::<B, T1, V1>(self.1, one) && result == present(one)
            } else if index == 2 {
                exists|one: Result<List<B::Param>, B::Error>| #[trigger] encodes::<B, T2, V2>(self.2, one) && result == present(one)
            } else {
                result == Ok::<Option<List<B::Param>>, B::Error>(None)
            }
    }

    fn write_params(&self) -> (result: Result<List<B::Param>, B::Error>) {
        let r0 = encode_param::<B, T0, V0>(&self.0);
        let r1 = encode_param::<B, T1, V1>(&self.1);
        let r2 = encode_param::<B, T2, V2>(&self.2);
        join(r0, join(r1, join(r2, Ok(List::Nil))))
    }

    fn write_param_at(&self, index: usize) -> (result: Result<Option<List<B::Param>>, B::Error>) {
        if index == 0 {
            given(encode_param::<B, T0, V0>(&self.0))
        } else if index == 1 {
            given(encode_param::<B, T1, V1>(&self.1))
        } else if index == 2 {
            given(encode_param::<B, T2, V2>(&self.2))
        } else {
            Ok(None)
        }
    }
}

impl<
    B: Backend,
    T0: Encode<B>,
    T1: Encode<B>,
    T2: Encode<B>,
    T3: Encode<B>,
    V0: IntoPreparedParam<T0> + Duplicate,
    V1: IntoPreparedParam<T1> + Duplicate,
    V2: IntoPreparedParam<T2> + Duplicate,
    V3: IntoPreparedParam<T3> + Duplicate,
> PreparedParamValues<HCons<T0, HCons<T1, HCons<T2, HCons<T3, HNil>>>>, B> for (V0, V1, V2, V3) {
    open spec fn all_encoded(&self, result: Result<List<B::Param>, B::Error>) -> bool {
        exists|r0: Result<List<B::Param>, B::Error>, r1: Result<List<B::Param>, B::Error>, r2: Result<List<B::Param>, B::Error>, r3: Result<List<B::Param>, B::Error>|
        {
            &&& #[trigger] encodes::<B, T0, V0>(self.0, r0)
            &&& #[trigger] encodes::<B, T1, V1>(self.1, r1)
            &&& #[trigger] encodes::<B, T2, V2>(self.2, r2)
            &&& #[trigger] encodes::<B, T3, V3>(self.3, r3)
            &&& result == joined(r0, joined(r1, joined(r2, joined(r3, Ok(List::Nil)))))
        }
    }

    open spec fn one_encoded(&self, index: usize, result: Result<Option<List<B::Param>>, B::Error>) -> bool {
            if index == 0 {
                exists|one: Result<List<B::Param>, B::Error>| #[trigger] encodes::<B, T0, V0>(self.0, one) && result == present(one)
            } else if index == 1 {
                exists|one: Result<List<B::Param>, B::Error>| #[trigger] encodes::<B, T1, V1>(self.1, one) && result == present(one)
            } else if index == 2 {
                exists|one: Result<List<B::Param>, B::Error>| #[trigger] encodes::<B, T2, V2>(self.2, one) && result == present(one)
            } else if index == 3 {
                exists|one: Result<List<B::Param>, B::Error>| #[trigger] encodes::<B, T3, V3>(self.3, one) && result == present(one)
            } else {
                result == Ok::<Option<List<B::Param>>, B::Error>(None)
            }
    }

    fn write_params(&self) -> (result: Result<List<B::Param>, B::Error>) {
        let r0 = encode_param::<B, T0, V0>(&self.0);
        let r1 = encode_param::<B, T1, V1>(&self.1);
        let r2 = encode_param::<B, T2, V2>(&self.2);
        let r3 = encode_param::<B, T3, V3>(&self.3);
        join(r0, join(r1, join(r2, join(r3, Ok(List::Nil)))))
    }

    fn write_param_at(&self, index: usize) -> (result: Result<Option<List<B::Param>>, B::Error>) {
        if index == 0 {
            given(encode_param::<B, T0, V0>(&self.0))
        } else if index == 1 {
            given(encode_param::<B, T1, V1>(&self.1))
        } else if index == 2 {
            given(encode_param::<B, T2, V2>(&self.2))
        } else if index == 3 {
            given(encode_param::<B, T3, V3>(&self.3))
        } else {
            Ok(None)
        }
    }
}

impl<
    B: Backend,
    T0: Encode<B>,
    T1: Encode<B>,
    T2: Encode<B>,
    T3: Encode<B>,
    T4: Encode<B>,
    V0: IntoPreparedParam<T0> + Duplicate,
    V1: IntoPreparedParam<T1> + Duplicate,
    V2: IntoPreparedParam<T2> + Duplicate,
    V3: IntoPreparedParam<T3> + Duplicate,
    V4: IntoPreparedParam<T4> + Duplicate,
> PreparedParamValues<HCons<T0, HCons<T1, HCons<T2, HCons<T3, HCons<T4, HNil>>>>>, B> for (V0, V1, V2, V3, V4) {
    open spec fn all_encoded(&self, result: Result<List<B::Param>, B::Error>) -> bool {
        exists|r0: Result<List<B::Param>, B::Error>, r1: Result<List<B::Param>, B::Error>, r2: Result<List<B::Param>, B::Error>, r3: Result<List<B::Param>, B::Error>, r4: Result<List<B::Param>, B::Error>|
        {
            &&& #[trigger] encodes::<B, T0, V0>(self.0, r0)
            &&& #[trigger] encodes::<B, T1, V1>(self.1, r1)
            &&& #[trigger] encodes::<B, T2, V2>(self.2, r2)
            &&& #[trigger] encodes::<B, T3, V3>(self.3, r3)
            &&& #[trigger] encodes::<B, T4, V4>(self.4, r4)
            &&& result == joined(r0, joined(r1, joined(r2, joined(r3, joined(r4, Ok(List::Nil))))))
        }
    }

    open spec fn one_encoded(&self, index: usize, result: Result<Option<List<B::Param>>, B::Error>) -> bool {
            if index == 0 {
                exists|one: Result<List<B::Param>, B::Error>| #[trigger] encodes::<B, T0, V0>(self.0, one) && result == present(one)
            } else if index == 1 {
                exists|one: Result<List<B::Param>, B::Error>| #[trigger] encodes::<B, T1, V1>(self.1, one) && result == present(one)
            } else if index == 2 {
                exists|one: Result<List<B::Param>, B::Error>| #[trigger] encodes::<B, T2, V2>(self.2, one) && result == present(one)
            } else if index == 3 {
                exists|one: Result<List<B::Param>, B::Error>| #[trigger] encodes::<B, T3, V3>(self.3, one) && result == present(one)
            } else if index == 4 {
                exists|one: Result<List<B::Param>, B::Error>| #[trigger] encodes::<B, T4, V4>(self.4, one) && result == present(one)
            } else {
                result == Ok::<Option<List<B::Param>>, B::Error>(None)
            }
    }

    fn write_params(&self) -> (result: Result<List<B::Param>, B::Error>) {
        let r0 = encode_param::<B, T0, V0>(&self.0);
        let r1 = encode_param::<B, T1, V1>(&self.1);
        let r2 = encode_param::<B, T2, V2>(&self.2);
        let r3 = encode_param::<B, T3, V3>(&self.3);
        let r4 = encode_param::<B, T4, V4>(&self.4);
        join(r0, join(r1, join(r2, join(r3, join(r4, Ok(List::Nil))))))
    }

    fn write_param_at(&self, index: usize) -> (result: Result<Option<List<B::Param>>, B::Error>) {
        if index == 0 {
            given(encode_param::<B, T0, V0>(&self.0))
        } else if index == 1 {
            given(encode_param::<B, T1, V1>(&self.1))
        } else if index == 2 {
            given(encode_param::<B, T2, V2>(&self.2))
        } else if index == 3 {
            given(encode_param::<B, T3, V3>(&self.3))
        } else if index == 4 {
            given(encode_param::<B, T4, V4>(&self.4))
        } else {
            Ok(None)
        }
    }
}

impl<
    B: Backend,
    T0: Encode<B>,
    T1: Encode<B>,
    T2: Encode<B>,
    T3: Encode<B>,
    T4: Encode<B>,
    T5: Encode<B>,
    V0: IntoPreparedParam<T0> + Duplicate,
    V1: IntoPreparedParam<T1> + Duplicate,
    V2: IntoPreparedParam<T2> + Duplicate,
    V3: IntoPreparedParam<T3> + Duplicate,
    V4: IntoPreparedParam<T4> + Duplicate,
    V5: IntoPreparedParam<T5> + Duplicate,
> PreparedParamValues<HCons<T0, HCons<T1, HCons<T2, HCons<T3, HCons<T4, HCons<T5, HNil>>>>>>, B> for (V0, V1, V2, V3, V4, V5) {
    open spec fn all_encoded(&self, result: Result<List<B::Param>, B::Error>) -> bool {
        exists|r0: Result<List<B::Param>, B::Error>, r1: Result<List<B::Param>, B::Error>, r2: Result<List<B::Param>, B::Error>, r3: Result<List<B::Param>, B::Error>, r4: Result<List<B::Param>, B::Error>, r5: Result<List<B::Param>, B::Error>|
        {
            &&& #[trigger] encodes::<B, T0, V0>(self.0, r0)
            &&& #[trigger] encodes::<B, T1, V1>(self.1, r1)
            &&& #[trigger] encodes::<B, T2, V2>(self.2, r2)
            &&& #[trigger] encodes::<B, T3, V3>(self.3, r3)
            &&& #[trigger] encodes::<B, T4, V4>(self.4, r4)
            &&& #[trigger] encodes::<B, T5, V5>(self.5, r5)
            &&& result == joined(r0, joined(r1, joined(r2, joined(r3, joined(r4, joined(r5, Ok(List::Nil)))))))
        }
    }

    open spec fn one_encoded(&self, index: usize, result: Result<Option<List<B::Param>>, B::Error>) -> bool {
            if index == 0 {
                exists|one: Result<List<B::Param>, B::Error>| #[trigger] encodes::<B, T0, V0>(self.0, one) && result == present(one)
            } else if index == 1 {
                exists|one: Result<List<B::Param>, B::Error>| #[trigger] encodes::<B, T1, V1>(self.1, one) && result == present(one)
            } else if index == 2 {
                exists|one: Result<List<B::Param>, B::Error>| #[trigger] encodes::<B, T2, V2>(self.2, one) && result == present(one)
            } else if index == 3 {
                exists|one: Result<List<B::Param>, B::Error>| #[trigger] encodes::<B, T3, V3>(self.3, one) && result == present(one)
            } else if index == 4 {
                exists|one: Result<List<B::Param>, B::Error>| #[trigger] encodes::<B, T4, V4>(self.4, one) && result == present(one)
            } else if index == 5 {
                exists|one: Result<List<B::Param>, B::Error>| #[trigger] encodes::<B, T5, V5>(self.5, one) && result == present(one)
            } else {
                result == Ok::<Option<List<B::Param>>, B::Error>(None)
            }
    }

    fn write_params(&self) -> (result: Result<List<B::Param>, B::Error>) {
        let r0 = encode_param::<B, T0, V0>(&self.0);
        let r1 = encode_param::<B, T1, V1>(&self.1);
        let r2 = encode_param::<B, T2, V2>(&self.2);
        let r3 = encode_param::<B, T3, V3>(&self.3);
        let r4 = encode_param::<B, T4, V4>(&self.4);
        let r5 = encode_param::<B, T5, V5>(&self.5);
        join(r0, join(r1, join(r2, join(r3, join(r4, join(r5, Ok(List::Nil)))))))
    }

    fn write_param_at(&self, index: usize) -> (result: Result<Option<List<B::Param>>, B::Error>) {
        if index == 0 {
            given(encode_param::<B, T0, V0>(&self.0))
        } else if index == 1 {
            given(encode_param::<B, T1, V1>(&self.1))
        } else if index == 2 {
            given(encode_param::<B, T2, V2>(&self.2))
        } else if index == 3 {
            given(encode_param::<B, T3, V3>(&self.3))
        } else if index == 4 {
            given(encode_param::<B, T4, V4>(&self.4))
        } else if index == 5 {
            given(encode_param::<B, T5, V5>(&self.5))
        } else {
            Ok(None)
        }
    }
}

impl<
    B: Backend,
    T0: Encode<B>,
    T1: Encode<B>,
    T2: Encode<B>,
    T3: Encode<B>,
    T4: Encode<B>,
    T5: Encode<B>,
    T6: Encode<B>,
    V0: IntoPreparedParam<T0> + Duplicate,
    V1: IntoPreparedParam<T1> + Duplicate,
    V2: IntoPreparedParam<T2> + Duplicate,
    V3: IntoPreparedParam<T3> + Duplicate,
    V4: IntoPreparedParam<T4> + Duplicate,
    V5: IntoPreparedParam<T5> + Duplicate,
    V6: IntoPreparedParam<T6> + Duplicate,
> PreparedParamValues<HCons<T0, HCons<T1, HCons<T2, HCons<T3, HCons<T4, HCons<T5, HCons<T6, HNil>>>>>>>, B> for (V0, V1, V2, V3, V4, V5, V6) {
    open spec fn all_encoded(&self, result: Result<List<B::Param>, B::Error>) -> bool {
        exists|r0: Result<List<B::Param>, B::Error>, r1: Result<List<B::Param>, B::Error>, r2: Result<List<B::Param>, B::Error>, r3: Result<List<B::Param>, B::Error>, r4: Result<List<B::Param>, B::Error>, r5: Result<List<B::Param>, B::Error>, r6: Result<List<B::Param>, B::Error>|
        {
            &&& #[trigger] encodes::<B, T0, V0>(self.0, r0)
            &&& #[trigger] encodes::<B, T1, V1>(self.1, r1)
            &&& #[trigger] encodes::<B, T2, V2>(self.2, r2)
            &&& #[trigger] encodes::<B, T3, V3>(self.3, r3)
            &&& #[trigger] encodes::<B, T4, V4>(self.4, r4)
            &&& #[trigger] encodes::<B, T5, V5>(self.5, r5)
            &&& #[trigger] encodes::<B, T6, V6>(self.6, r6)
            &&& result == joined(r0, joined(r1, joined(r2, joined(r3, joined(r4, joined(r5, joined(r6, Ok(List::Nil))))))))
        }
    }

    open spec fn one_encoded(&self, index: usize, result: Result<Option<List<B::Param>>, B::Error>) -> bool {
            if index == 0 {
                exists|one: Result<List<B::Param>, B::Error>| #[trigger] encodes::<B, T0, V0>(self.0, one) && result == present(one)
            } else if index == 1 {
                exists|one: Result<List<B::Param>, B::Error>| #[trigger] encodes::<B, T1, V1>(self.1, one) && result == present(one)
            } else if index == 2 {
                exists|one: Result<List<B::Param>, B::Error>| #[trigger] encodes::<B, T2, V2>(self.2, one) && result == present(one)
            } else if index == 3 {
                exists|one: Result<List<B::Param>, B::Error>| #[trigger] encodes::<B, T3, V3>(self.3, one) && result == present(one)
            } else if index == 4 {
                exists|one: Result<List<B::Param>, B::Error>| #[trigger] encodes::<B, T4, V4>(self.4, one) && result == present(one)
            } else if index == 5 {
                exists|one: Result<List<B::Param>, B::Error>| #[trigger] encodes::<B, T5, V5>(self.5, one) && result == present(one)
            } else if index == 6 {
                exists|one: Result<List<B::Param>, B::Error>| #[trigger] encodes::<B, T6, V6>(self.6, one) && result == present(one)
            } else {
                result == Ok::<Option<List<B::Param>>, B::Error>(None)
            }
    }

    fn write_params(&self) -> (result: Result<List<B::Param>, B::Error>) {
        let r0 = encode_param::<B, T0, V0>(&self.0);
        let r1 = encode_param::<B, T1, V1>(&self.1);
        let r2 = encode_param::<B, T2, V2>(&self.2);
        let r3 = encode_param::<B, T3, V3>(&self.3);
        let r4 = encode_param::<B, T4, V4>(&self.4);
        let r5 = encode_param::<B, T5, V5>(&self.5);
        let r6 = encode_param::<B, T6, V6>(&self.6);
        join(r0, join(r1, join(r2, join(r3, join(r4, join(r5, join(r6, Ok(List::Nil))))))))
    }

    fn write_param_at(&self, index: usize) -> (result: Result<Option<List<B::Param>>, B::Error>) {
        if index == 0 {
            given(encode_param::<B, T0, V0>(&self.0))
        } else if index == 1 {
            given(encode_param::<B, T1, V1>(&self.1))
        } else if index == 2 {
            given(encode_param::<B, T2, V2>(&self.2))
        } else if index == 3 {
            given(encode_param::<B, T3, V3>(&self.3))
        } else if index == 4 {
            given(encode_param::<B, T4, V4>(&self.4))
        } else if index == 5 {
            given(encode_param::<B, T5, V5>(&self.5))
        } else if index == 6 {
            given(encode_param::<B, T6, V6>(&self.6))
        } else {
            Ok(None)
        }
    }
}

impl<
    B: Backend,
    T0: Encode<B>,
    T1: Encode<B>,
    T2: Encode<B>,
    T3: Encode<B>,
    T4: Encode<B>,
    T5: Encode<B>,
    T6: Encode<B>,
    T7: Encode<B>,
    V0: IntoPreparedParam<T0> + Duplicate,
    V1: IntoPreparedParam<T1> + Duplicate,
    V2: IntoPreparedParam<T2> + Duplicate,
    V3: IntoPreparedParam<T3> + Duplicate,
    V4: IntoPreparedParam<T4> + Duplicate,
    V5: IntoPreparedParam<T5> + Duplicate,
    V6: IntoPreparedParam<T6> + Duplicate,
    V7: IntoPreparedParam<T7> + Duplicate,
> PreparedParamValues<HCons<T0, HCons<T1, HCons<T2, HCons<T3, HCons<T4, HCons<T5, HCons<T6, HCons<T7, HNil>>>>>>>>, B> for (V0, V1, V2, V3, V4, V5, V6, V7) {
    open spec fn all_encoded(&self, result: Result<List<B::Param>, B::Error>) -> bool {
        exists|r0: Result<List<B::Param>, B::Error>, r1: Result<List<B::Param>, B::Error>, r2: Result<List<B::Param>, B::Error>, r3: Result<List<B::Param>, B::Error>, r4: Result<List<B::Param>, B::Error>, r5: Result<List<B::Param>, B::Error>, r6: Result<List<B::Param>, B::Error>, r7: Result<List<B::Param>, B::Error>|
        {
            &&& #[trigger] encodes::<B, T0, V0>(self.0, r0)
            &&& #[trigger] encodes::<B, T1, V1>(self.1, r1)
            &&& #[trigger] encodes::<B, T2, V2>(self.2, r2)
            &&& #[trigger] encodes::<B, T3, V3>(self.3, r3)
            &&& #[trigger] encodes::<B, T4, V4>(self.4, r4)
            &&& #[trigger] encodes::<B, T5, V5>(self.5, r5)
            &&& #[trigger] encodes::<B, T6, V6>(self.6, r6)
            &&& #[trigger] encodes::<B, T7, V7>(self.7, r7)
            &&& result == joined(r0, joined(r1, joined(r2, joined(r3, joined(r4, joined(r5, joined(r6, joined(r7, Ok(List::Nil)))))))))
        }
    }

    open spec fn one_encoded(&self, index: usize, result: Result<Option<List<B::Param>>, B::Error>) -> bool {
            if index == 0 {
                exists|one: Result<List<B::Param>, B::Error>| #[trigger] encodes::<B, T0, V0>(self.0, one) && result == present(one)
            } else if index == 1 {
                exists|one: Result<List<B::Param>, B::Error>| #[trigger] encodes::<B, T1, V1>(self.1, one) && result == present(one)
            } else if index == 2 {
                exists|one: Result<List<B::Param>, B::Error>| #[trigger] encodes::<B, T2, V2>(self.2, one) && result == present(one)
            } else if index == 3 {
                exists|one: Result<List<B::Param>, B::Error>| #[trigger] encodes::<B, T3, V3>(self.3, one) && result == present(one)
            } else if index == 4 {
                exists|one: Result<List<B::Param>, B::Error>| #[trigger] encodes::<B, T4, V4>(self.4, one) && result == present(one)
            } else if index == 5 {
                exists|one: Result<List<B::Param>, B::Error>| #[trigger] encodes::<B, T5, V5>(self.5, one) && result == present(one)
            } else if index == 6 {
                exists|one: Result<List<B::Param>, B::Error>| #[trigger] encodes::<B, T6, V6>(self.6, one) && result == present(one)
            } else if index == 7 {
                exists|one: Result<List<B::Param>, B::Error>| #[trigger] encodes::<B, T7, V7>(self.7, one) && result == present(one)
            } else {
                result == Ok::<Option<List<B::Param>>, B::Error>(None)
            }
    }

    fn write_params(&self) -> (result: Result<List<B::Param>, B::Error>) {
        let r0 = encode_param::<B, T0, V0>(&self.0);
        let r1 = encode_param::<B, T1, V1>(&self.1);
        let r2 = encode_param::<B, T2, V2>(&self.2);
        let r3 = encode_param::<B, T3, V3>(&self.3);
        let r4 = encode_param::<B, T4, V4>(&self.4);
        let r5 = encode_param::<B, T5, V5>(&self.5);
        let r6 = encode_param::<B, T6, V6>(&self.6);
        let r7 = encode_param::<B, T7, V7>(&self.7);
        join(r0, join(r1, join(r2, join(r3, join(r4, join(r5, join(r6, join(r7, Ok(List::Nil)))))))))
    }

    fn write_param_at(&self, index: usize) -> (result: Result<Option<List<B::Param>>, B::Error>) {
        if index == 0 {
            given(encode_param::<B, T0, V0>(&self.0))
        } else if index == 1 {
            given(encode_param::<B, T1, V1>(&self.1))
        } else if index == 2 {
            given(encode_param::<B, T2, V2>(&self.2))
        } else if index == 3 {
            given(encode_param::<B, T3, V3>(&self.3))
        } else if index == 4 {
            given(encode_param::<B, T4, V4>(&self.4))
        } else if index == 5 {
            given(encode_param::<B, T5, V5>(&self.5))
        } else if index == 6 {
            given(encode_param::<B, T6, V6>(&self.6))
        } else if index == 7 {
            given(encode_param::<B, T7, V7>(&self.7))
        } else {
            Ok(None)
        }
    }
}

} // verus!
