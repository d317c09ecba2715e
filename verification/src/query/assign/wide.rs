//! Assignments of nine to thirty-two columns: the first of them, followed by the rest.
use crate::list::HAppend;
use crate::projection::{InsertableTable, UpdateableTable};
use crate::query::assign::joined::Joined;
use crate::query::assign::{
    InsertAssignments, InsertColumnValues, UpdateAssignments, UpdateColumnValues,
};
use vstd::prelude::*;

verus! {

impl<
    S: InsertableTable,
    K0, K1, K2, K3, K4, K5, K6, K7, K8,
    V0, V1, V2, V3, V4, V5, V6, V7, V8,
> InsertColumnValues<S, (V0, V1, V2, V3, V4, V5, V6, V7, V8)> for (K0, K1, K2, K3, K4, K5, K6, K7, K8) where
    (K0, K1, K2, K3, K4, K5, K6, K7): InsertColumnValues<S, (V0, V1, V2, V3, V4, V5, V6, V7)>,
    (K8,): InsertColumnValues<S, (V8,)>,
    <<(K0, K1, K2, K3, K4, K5, K6, K7) as InsertColumnValues<S, (V0, V1, V2, V3, V4, V5, V6, V7)>>::Assignments as InsertAssignments>::Params: HAppend<
        <<(K8,) as InsertColumnValues<S, (V8,)>>::Assignments as InsertAssignments>::Params,
    >,
 {
    type Assignments = Joined<
        <(K0, K1, K2, K3, K4, K5, K6, K7) as InsertColumnValues<S, (V0, V1, V2, V3, V4, V5, V6, V7)>>::Assignments,
        <(K8,) as InsertColumnValues<S, (V8,)>>::Assignments,
    >;

    open spec fn column_names() -> Seq<&'static str> {
        <(K0, K1, K2, K3, K4, K5, K6, K7) as InsertColumnValues<S, (V0, V1, V2, V3, V4, V5, V6, V7)>>::column_names() + <(K8,) as InsertColumnValues<S, (V8,)>>::column_names()
    }

    open spec fn assigns(values: (V0, V1, V2, V3, V4, V5, V6, V7, V8), assignments: Self::Assignments) -> bool {
        &&& <(K0, K1, K2, K3, K4, K5, K6, K7) as InsertColumnValues<S, (V0, V1, V2, V3, V4, V5, V6, V7)>>::assigns((values.0, values.1, values.2, values.3, values.4, values.5, values.6, values.7), assignments.first)
        &&& <(K8,) as InsertColumnValues<S, (V8,)>>::assigns((values.8,), assignments.second)
    }

    fn into_insert_assignments(values: (V0, V1, V2, V3, V4, V5, V6, V7, V8)) -> (assignments: Self::Assignments) {
        let first = <(K0, K1, K2, K3, K4, K5, K6, K7) as InsertColumnValues<S, (V0, V1, V2, V3, V4, V5, V6, V7)>>::into_insert_assignments((values.0, values.1, values.2, values.3, values.4, values.5, values.6, values.7));
        let second = <(K8,) as InsertColumnValues<S, (V8,)>>::into_insert_assignments((values.8,));
        Joined { first, second }
    }
}

impl<
    S: InsertableTable,
    K0, K1, K2, K3, K4, K5, K6, K7, K8, K9,
    V0, V1, V2, V3, V4, V5, V6, V7, V8, V9,
> InsertColumnValues<S, (V0, V1, V2, V3, V4, V5, V6, V7, V8, V9)> for (K0, K1, K2, K3, K4, K5, K6, K7, K8, K9) where
    (K0, K1, K2, K3, K4, K5, K6, K7): InsertColumnValues<S, (V0, V1, V2, V3, V4, V5, V6, V7)>,
    (K8, K9): InsertColumnValues<S, (V8, V9)>,
    <<(K0, K1, K2, K3, K4, K5, K6, K7) as InsertColumnValues<S, (V0, V1, V2, V3, V4, V5, V6, V7)>>::Assignments as InsertAssignments>::Params: HAppend<
        <<(K8, K9) as InsertColumnValues<S, (V8, V9)>>::Assignments as InsertAssignments>::Params,
    >,
 {
    type Assignments = Joined<
        <(K0, K1, K2, K3, K4, K5, K6, K7) as InsertColumnValues<S, (V0, V1, V2, V3, V4, V5, V6, V7)>>::Assignments,
        <(K8, K9) as InsertColumnValues<S, (V8, V9)>>::Assignments,
    >;

    open spec fn column_names() -> Seq<&'static str> {
        <(K0, K1, K2, K3, K4, K5, K6, K7) as InsertColumnValues<S, (V0, V1, V2, V3, V4, V5, V6, V7)>>::column_names() + <(K8, K9) as InsertColumnValues<S, (V8, V9)>>::column_names()
    }

    open spec fn assigns(values: (V0, V1, V2, V3, V4, V5, V6, V7, V8, V9), assignments: Self::Assignments) -> bool {
        &&& <(K0, K1, K2, K3, K4, K5, K6, K7) as InsertColumnValues<S, (V0, V1, V2, V3, V4, V5, V6, V7)>>::assigns((values.0, values.1, values.2, values.3, values.4, values.5, values.6, values.7), assignments.first)
        &&& <(K8, K9) as InsertColumnValues<S, (V8, V9)>>::assigns((values.8, values.9), assignments.second)
    }

    fn into_insert_assignments(values: (V0, V1, V2, V3, V4, V5, V6, V7, V8, V9)) -> (assignments: Self::Assignments) {
        let first = <(K0, K1, K2, K3, K4, K5, K6, K7) as InsertColumnValues<S, (V0, V1, V2, V3, V4, V5, V6, V7)>>::into_insert_assignments((values.0, values.1, values.2, values.3, values.4, values.5, values.6, values.7));
        let second = <(K8, K9) as InsertColumnValues<S, (V8, V9)>>::into_insert_assignments((values.8, values.9));
        Joined { first, second }
    }
}

impl<
    S: InsertableTable,
    K0, K1, K2, K3, K4, K5, K6, K7, K8, K9, K10,
    V0, V1, V2, V3, V4, V5, V6, V7, V8, V9, V10,
> InsertColumnValues<S, (V0, V1, V2, V3, V4, V5, V6, V7, V8, V9, V10)> for (K0, K1, K2, K3, K4, K5, K6, K7, K8, K9, K10) where
    (K0, K1, K2, K3, K4, K5, K6, K7): InsertColumnValues<S, (V0, V1, V2, V3, V4, V5, V6, V7)>,
    (K8, K9, K10): InsertColumnValues<S, (V8, V9, V10)>,
    <<(K0, K1, K2, K3, K4, K5, K6, K7) as InsertColumnValues<S, (V0, V1, V2, V3, V4, V5, V6, V7)>>::Assignments as InsertAssignments>::Params: HAppend<
        <<(K8, K9, K10) as InsertColumnValues<S, (V8, V9, V10)>>::Assignments as InsertAssignments>::Params,
    >,
 {
    type Assignments = Joined<
        <(K0, K1, K2, K3, K4, K5, K6, K7) as InsertColumnValues<S, (V0, V1, V2, V3, V4, V5, V6, V7)>>::Assignments,
        <(K8, K9, K10) as InsertColumnValues<S, (V8, V9, V10)>>::Assignments,
    >;

    open spec fn column_names() -> Seq<&'static str> {
        <(K0, K1, K2, K3, K4, K5, K6, K7) as InsertColumnValues<S, (V0, V1, V2, V3, V4, V5, V6, V7)>>::column_names() + <(K8, K9, K10) as InsertColumnValues<S, (V8, V9, V10)>>::column_names()
    }

    open spec fn assigns(values: (V0, V1, V2, V3, V4, V5, V6, V7, V8, V9, V10), assignments: Self::Assignments) -> bool {
        &&& <(K0, K1, K2, K3, K4, K5, K6, K7) as InsertColumnValues<S, (V0, V1, V2, V3, V4, V5, V6, V7)>>::assigns((values.0, values.1, values.2, values.3, values.4, values.5, values.6, values.7), assignments.first)
        &&& <(K8, K9, K10) as InsertColumnValues<S, (V8, V9, V10)>>::assigns((values.8, values.9, values.10), assignments.second)
    }

    fn into_insert_assignments(values: (V0, V1, V2, V3, V4, V5, V6, V7, V8, V9, V10)) -> (assignments: Self::Assignments) {
        let first = <(K0, K1, K2, K3, K4, K5, K6, K7) as InsertColumnValues<S, (V0, V1, V2, V3, V4, V5, V6, V7)>>::into_insert_assignments((values.0, values.1, values.2, values.3, values.4, values.5, values.6, values.7));
        let second = <(K8, K9, K10) as InsertColumnValues<S, (V8, V9, V10)>>::into_insert_assignments((values.8, values.9, values.10));
        Joined { first, second }
    }
}

impl<
    S: InsertableTable,
    K0, K1, K2, K3, K4, K5, K6, K7, K8, K9, K10, K11,
    V0, V1, V2, V3, V4, V5, V6, V7, V8, V9, V10, V11,
> InsertColumnValues<S, (V0, V1, V2, V3, V4, V5, V6, V7, V8, V9, V10, V11)> for (K0, K1, K2, K3, K4, K5, K6, K7, K8, K9, K10, K11) where
    (K0, K1, K2, K3, K4, K5, K6, K7): InsertColumnValues<S, (V0, V1, V2, V3, V4, V5, V6, V7)>,
    (K8, K9, K10, K11): InsertColumnValues<S, (V8, V9, V10, V11)>,
    <<(K0, K1, K2, K3, K4, K5, K6, K7) as InsertColumnValues<S, (V0, V1, V2, V3, V4, V5, V6, V7)>>::Assignments as InsertAssignments>::Params: HAppend<
        <<(K8, K9, K10, K11) as InsertColumnValues<S, (V8, V9, V10, V11)>>::Assignments as InsertAssignments>::Params,
    >,
 {
    type Assignments = Joined<
        <(K0, K1, K2, K3, K4, K5, K6, K7) as InsertColumnValues<S, (V0, V1, V2, V3, V4, V5, V6, V7)>>::Assignments,
        <(K8, K9, K10, K11) as InsertColumnValues<S, (V8, V9, V10, V11)>>::Assignments,
    >;

    open spec fn column_names() -> Seq<&'static str> {
        <(K0, K1, K2, K3, K4, K5, K6, K7) as InsertColumnValues<S, (V0, V1, V2, V3, V4, V5, V6, V7)>>::column_names() + <(K8, K9, K10, K11) as InsertColumnValues<S, (V8, V9, V10, V11)>>::column_names()
    }

    open spec fn assigns(values: (V0, V1, V2, V3, V4, V5, V6, V7, V8, V9, V10, V11), assignments: Self::Assignments) -> bool {
        &&& <(K0, K1, K2, K3, K4, K5, K6, K7) as InsertColumnValues<S, (V0, V1, V2, V3, V4, V5, V6, V7)>>::assigns((values.0, values.1, values.2, values.3, values.4, values.5, values.6, values.7), assignments.first)
        &&& <(K8, K9, K10, K11) as InsertColumnValues<S, (V8, V9, V10, V11)>>::assigns((values.8, values.9, values.10, values.11), assignments.second)
    }

    fn into_insert_assignments(values: (V0, V1, V2, V3, V4, V5, V6, V7, V8, V9, V10, V11)) -> (assignments: Self::Assignments) {
        let first = <(K0, K1, K2, K3, K4, K5, K6, K7) as InsertColumnValues<S, (V0, V1, V2, V3, V4, V5, V6, V7)>>::into_insert_assignments((values.0, values.1, values.2, values.3, values.4, values.5, values.6, values.7));
        let second = <(K8, K9, K10, K11) as InsertColumnValues<S, (V8, V9, V10, V11)>>::into_insert_assignments((values.8, values.9, values.10, values.11));
        Joined { first, second }
    }
}

impl<
    S: InsertableTable,
    K0, K1, K2, K3, K4, K5, K6, K7, K8, K9, K10, K11, K12,
    V0, V1, V2, V3, V4, V5, V6, V7, V8, V9, V10, V11, V12,
> InsertColumnValues<S, (V0, V1, V2, V3, V4, V5, V6, V7, V8, V9, V10, V11, V12)> for (K0, K1, K2, K3, K4, K5, K6, K7, K8, K9, K10, K11, K12) where
    (K0, K1, K2, K3, K4, K5, K6, K7): InsertColumnValues<S, (V0, V1, V2, V3, V4, V5, V6, V7)>,
    (K8, K9, K10, K11, K12): InsertColumnValues<S, (V8, V9, V10, V11, V12)>,
    <<(K0, K1, K2, K3, K4, K5, K6, K7) as InsertColumnValues<S, (V0, V1, V2, V3, V4, V5, V6, V7)>>::Assignments as InsertAssignments>::Params: HAppend<
        <<(K8, K9, K10, K11, K12) as InsertColumnValues<S, (V8, V9, V10, V11, V12)>>::Assignments as InsertAssignments>::Params,
    >,
 {
    type Assignments = Joined<
        <(K0, K1, K2, K3, K4, K5, K6, K7) as InsertColumnValues<S, (V0, V1, V2, V3, V4, V5, V6, V7)>>::Assignments,
        <(K8, K9, K10, K11, K12) as InsertColumnValues<S, (V8, V9, V10, V11, V12)>>::Assignments,
    >;

    open spec fn column_names() -> Seq<&'static str> {
        <(K0, K1, K2, K3, K4, K5, K6, K7) as InsertColumnValues<S, (V0, V1, V2, V3, V4, V5, V6, V7)>>::column_names() + <(K8, K9, K10, K11, K12) as InsertColumnValues<S, (V8, V9, V10, V11, V12)>>::column_names()
    }

    open spec fn assigns(values: (V0, V1, V2, V3, V4, V5, V6, V7, V8, V9, V10, V11, V12), assignments: Self::Assignments) -> bool {
        &&& <(K0, K1, K2, K3, K4, K5, K6, K7) as InsertColumnValues<S, (V0, V1, V2, V3, V4, V5, V6, V7)>>::assigns((values.0, values.1, values.2, values.3, values.4, values.5, values.6, values.7), assignments.first)
        &&& <(K8, K9, K10, K11, K12) as InsertColumnValues<S, (V8, V9, V10, V11, V12)>>::assigns((values.8, values.9, values.10, values.11, values.12), assignments.second)
    }

    fn into_insert_assignments(values: (V0, V1, V2, V3, V4, V5, V6, V7, V8, V9, V10, V11, V12)) -> (assignments: Self::Assignments) {
        let first = <(K0, K1, K2, K3, K4, K5, K6, K7) as InsertColumnValues<S, (V0, V1, V2, V3, V4, V5, V6, V7)>>::into_insert_assignments((values.0, values.1, values.2, values.3, values.4, values.5, values.6, values.7));
        let second = <(K8, K9, K10, K11, K12) as InsertColumnValues<S, (V8, V9, V10, V11, V12)>>::into_insert_assignments((values.8, values.9, values.10, values.11, values.12));
        Joined { first, second }
    }
}

impl<
    S: InsertableTable,
    K0, K1, K2, K3, K4, K5, K6, K7, K8, K9, K10, K11, K12, K13,
    V0, V1, V2, V3, V4, V5, V6, V7, V8, V9, V10, V11, V12, V13,
> InsertColumnValues<S, (V0, V1, V2, V3, V4, V5, V6, V7, V8, V9, V10, V11, V12, V13)> for (K0, K1, K2, K3, K4, K5, K6, K7, K8, K9, K10, K11, K12, K13) where
    (K0, K1, K2, K3, K4, K5, K6, K7): InsertColumnValues<S, (V0, V1, V2, V3, V4, V5, V6, V7)>,
    (K8, K9, K10, K11, K12, K13): InsertColumnValues<S, (V8, V9, V10, V11, V12, V13)>,
    <<(K0, K1, K2, K3, K4, K5, K6, K7) as InsertColumnValues<S, (V0, V1, V2, V3, V4, V5, V6, V7)>>::Assignments as InsertAssignments>::Params: HAppend<
        <<(K8, K9, K10, K11, K12, K13) as InsertColumnValues<S, (V8, V9, V10, V11, V12, V13)>>::Assignments as InsertAssignments>::Params,
    >,
 {
    type Assignments = Joined<
        <(K0, K1, K2, K3, K4, K5, K6, K7) as InsertColumnValues<S, (V0, V1, V2, V3, V4, V5, V6, V7)>>::Assignments,
        <(K8, K9, K10, K11, K12, K13) as InsertColumnValues<S, (V8, V9, V10, V11, V12, V13)>>::Assignments,
    >;

    open spec fn column_names() -> Seq<&'static str> {
        <(K0, K1, K2, K3, K4, K5, K6, K7) as InsertColumnValues<S, (V0, V1, V2, V3, V4, V5, V6, V7)>>::column_names() + <(K8, K9, K10, K11, K12, K13) as InsertColumnValues<S, (V8, V9, V10, V11, V12, V13)>>::column_names()
    }

    open spec fn assigns(values: (V0, V1, V2, V3, V4, V5, V6, V7, V8, V9, V10, V11, V12, V13), assignments: Self::Assignments) -> bool {
        &&& <(K0, K1, K2, K3, K4, K5, K6, K7) as InsertColumnValues<S, (V0, V1, V2, V3, V4, V5, V6, V7)>>::assigns((values.0, values.1, values.2, values.3, values.4, values.5, values.6, values.7), assignments.first)
        &&& <(K8, K9, K10, K11, K12, K13) as InsertColumnValues<S, (V8, V9, V10, V11, V12, V13)>>::assigns((values.8, values.9, values.10, values.11, values.12, values.13), assignments.second)
    }

    fn into_insert_assignments(values: (V0, V1, V2, V3, V4, V5, V6, V7, V8, V9, V10, V11, V12, V13)) -> (assignments: Self::Assignments) {
        let first = <(K0, K1, K2, K3, K4, K5, K6, K7) as InsertColumnValues<S, (V0, V1, V2, V3, V4, V5, V6, V7)>>::into_insert_assignments((values.0, values.1, values.2, values.3, values.4, values.5, values.6, values.7));
        let second = <(K8, K9, K10, K11, K12, K13) as InsertColumnValues<S, (V8, V9, V10, V11, V12, V13)>>::into_insert_assignments((values.8, values.9, values.10, values.11, values.12, values.13));
        Joined { first, second }
    }
}

impl<
    S: InsertableTable,
    K0, K1, K2, K3, K4, K5, K6, K7, K8, K9, K10, K11, K12, K13, K14,
    V0, V1, V2, V3, V4, V5, V6, V7, V8, V9, V10, V11, V12, V13, V14,
> InsertColumnValues<S, (V0, V1, V2, V3, V4, V5, V6, V7, V8, V9, V10, V11, V12, V13, V14)> for (K0, K1, K2, K3, K4, K5, K6, K7, K8, K9, K10, K11, K12, K13, K14) where
    (K0, K1, K2, K3, K4, K5, K6, K7): InsertColumnValues<S, (V0, V1, V2, V3, V4, V5, V6, V7)>,
    (K8, K9, K10, K11, K12, K13, K14): InsertColumnValues<S, (V8, V9, V10, V11, V12, V13, V14)>,
    <<(K0, K1, K2, K3, K4, K5, K6, K7) as InsertColumnValues<S, (V0, V1, V2, V3, V4, V5, V6, V7)>>::Assignments as InsertAssignments>::Params: HAppend<
        <<(K8, K9, K10, K11, K12, K13, K14) as InsertColumnValues<S, (V8, V9, V10, V11, V12, V13, V14)>>::Assignments as InsertAssignments>::Params,
    >,
 {
    type Assignments = Joined<
        <(K0, K1, K2, K3, K4, K5, K6, K7) as InsertColumnValues<S, (V0, V1, V2, V3, V4, V5, V6, V7)>>::Assignments,
        <(K8, K9, K10, K11, K12, K13, K14) as InsertColumnValues<S, (V8, V9, V10, V11, V12, V13, V14)>>::Assignments,
    >;

    open spec fn column_names() -> Seq<&'static str> {
        <(K0, K1, K2, K3, K4, K5, K6, K7) as InsertColumnValues<S, (V0, V1, V2, V3, V4, V5, V6, V7)>>::column_names() + <(K8, K9, K10, K11, K12, K13, K14) as InsertColumnValues<S, (V8, V9, V10, V11, V12, V13, V14)>>::column_names()
    }

    open spec fn assigns(values: (V0, V1, V2, V3, V4, V5, V6, V7, V8, V9, V10, V11, V12, V13, V14), assignments: Self::Assignments) -> bool {
        &&& <(K0, K1, K2, K3, K4, K5, K6, K7) as InsertColumnValues<S, (V0, V1, V2, V3, V4, V5, V6, V7)>>::assigns((values.0, values.1, values.2, values.3, values.4, values.5, values.6, values.7), assignments.first)
        &&& <(K8, K9, K10, K11, K12, K13, K14) as InsertColumnValues<S, (V8, V9, V10, V11, V12, V13, V14)>>::assigns((values.8, values.9, values.10, values.11, values.12, values.13, values.14), assignments.second)
    }

    fn into_insert_assignments(values: (V0, V1, V2, V3, V4, V5, V6, V7, V8, V9, V10, V11, V12, V13, V14)) -> (assignments: Self::Assignments) {
        let first = <(K0, K1, K2, K3, K4, K5, K6, K7) as InsertColumnValues<S, (V0, V1, V2, V3, V4, V5, V6, V7)>>::into_insert_assignments((values.0, values.1, values.2, values.3, values.4, values.5, values.6, values.7));
        let second = <(K8, K9, K10, K11, K12, K13, K14) as InsertColumnValues<S, (V8, V9, V10, V11, V12, V13, V14)>>::into_insert_assignments((values.8, values.9, values.10, values.11, values.12, values.13, values.14));
        Joined { first, second }
    }
}

impl<
    S: InsertableTable,
    K0, K1, K2, K3, K4, K5, K6, K7, K8, K9, K10, K11, K12, K13, K14, K15,
    V0, V1, V2, V3, V4, V5, V6, V7, V8, V9, V10, V11, V12, V13, V14, V15,
> InsertColumnValues<S, (V0, V1, V2, V3, V4, V5, V6, V7, V8, V9, V10, V11, V12, V13, V14, V15)> for (K0, K1, K2, K3, K4, K5, K6, K7, K8, K9, K10, K11, K12, K13, K14, K15) where
    (K0, K1, K2, K3, K4, K5, K6, K7): InsertColumnValues<S, (V0, V1, V2, V3, V4, V5, V6, V7)>,
    (K8, K9, K10, K11, K12, K13, K14, K15): InsertColumnValues<S, (V8, V9, V10, V11, V12, V13, V14, V15)>,
    <<(K0, K1, K2, K3, K4, K5, K6, K7) as InsertColumnValues<S, (V0, V1, V2, V3, V4, V5, V6, V7)>>::Assignments as InsertAssignments>::Params: HAppend<
        <<(K8, K9, K10, K11, K12, K13, K14, K15) as InsertColumnValues<S, (V8, V9, V10, V11, V12, V13, V14, V15)>>::Assignments as InsertAssignments>::Params,
    >,
 {
    type Assignments = Joined<
        <(K0, K1, K2, K3, K4, K5, K6, K7) as InsertColumnValues<S, (V0, V1, V2, V3, V4, V5, V6, V7)>>::Assignments,
        <(K8, K9, K10, K11, K12, K13, K14, K15) as InsertColumnValues<S, (V8, V9, V10, V11, V12, V13, V14, V15)>>::Assignments,
    >;

    open spec fn column_names() -> Seq<&'static str> {
        <(K0, K1, K2, K3, K4, K5, K6, K7) as InsertColumnValues<S, (V0, V1, V2, V3, V4, V5, V6, V7)>>::column_names() + <(K8, K9, K10, K11, K12, K13, K14, K15) as InsertColumnValues<S, (V8, V9, V10, V11, V12, V13, V14, V15)>>::column_names()
    }

    open spec fn assigns(values: (V0, V1, V2, V3, V4, V5, V6, V7, V8, V9, V10, V11, V12, V13, V14, V15), assignments: Self::Assignments) -> bool {
        &&& <(K0, K1, K2, K3, K4, K5, K6, K7) as InsertColumnValues<S, (V0, V1, V2, V3, V4, V5, V6, V7)>>::assigns((values.0, values.1, values.2, values.3, values.4, values.5, values.6, values.7), assignments.first)
        &&& <(K8, K9, K10, K11, K12, K13, K14, K15) as InsertColumnValues<S, (V8, V9, V10, V11, V12, V13, V14, V15)>>::assigns((values.8, values.9, values.10, values.11, values.12, values.13, values.14, values.15), assignments.second)
    }

    fn into_insert_assignments(values: (V0, V1, V2, V3, V4, V5, V6, V7, V8, V9, V10, V11, V12, V13, V14, V15)) -> (assignments: Self::Assignments) {
        let first = <(K0, K1, K2, K3, K4, K5, K6, K7) as InsertColumnValues<S, (V0, V1, V2, V3, V4, V5, V6, V7)>>::into_insert_assignments((values.0, values.1, values.2, values.3, values.4, values.5, values.6, values.7));
        let second = <(K8, K9, K10, K11, K12, K13, K14, K15) as InsertColumnValues<S, (V8, V9, V10, V11, V12, V13, V14, V15)>>::into_insert_assignments((values.8, values.9, values.10, values.11, values.12, values.13, values.14, values.15));
        Joined { first, second }
    }
}

impl<
    S: InsertableTable,
    K0, K1, K2, K3, K4, K5, K6, K7, K8, K9, K10, K11, K12, K13, K14, K15, K16,
    V0, V1, V2, V3, V4, V5, V6, V7, V8, V9, V10, V11, V12, V13, V14, V15, V16,
> InsertColumnValues<S, (V0, V1, V2, V3, V4, V5, V6, V7, V8, V9, V10, V11, V12, V13, V14, V15, V16)> for (K0, K1, K2, K3, K4, K5, K6, K7, K8, K9, K10, K11, K12, K13, K14, K15, K16) where
    (K0, K1, K2, K3, K4, K5, K6, K7, K8, K9, K10, K11, K12, K13, K14, K15): InsertColumnValues<S, (V0, V1, V2, V3, V4, V5, V6, V7, V8, V9, V10, V11, V12, V13, V14, V15)>,
    (K16,): InsertColumnValues<S, (V16,)>,
    <<(K0, K1, K2, K3, K4, K5, K6, K7, K8, K9, K10, K11, K12, K13, K14, K15) as InsertColumnValues<S, (V0, V1, V2, V3, V4, V5, V6, V7, V8, V9, V10, V11, V12, V13, V14, V15)>>::Assignments as InsertAssignments>::Params: HAppend<
        <<(K16,) as InsertColumnValues<S, (V16,)>>::Assignments as InsertAssignments>::Params,
    >,
 {
    type Assignments = Joined<
        <(K0, K1, K2, K3, K4, K5, K6, K7, K8, K9, K10, K11, K12, K13, K14, K15) as InsertColumnValues<S, (V0, V1, V2, V3, V4, V5, V6, V7, V8, V9, V10, V11, V12, V13, V14, V15)>>::Assignments,
        <(K16,) as InsertColumnValues<S, (V16,)>>::Assignments,
    >;

    open spec fn column_names() -> Seq<&'static str> {
        <(K0, K1, K2, K3, K4, K5, K6, K7, K8, K9, K10, K11, K12, K13, K14, K15) as InsertColumnValues<S, (V0, V1, V2, V3, V4, V5, V6, V7, V8, V9, V10, V11, V12, V13, V14, V15)>>::column_names() + <(K16,) as InsertColumnValues<S, (V16,)>>::column_names()
    }

    open spec fn assigns(values: (V0, V1, V2, V3, V4, V5, V6, V7, V8, V9, V10, V11, V12, V13, V14, V15, V16), assignments: Self::Assignments) -> bool {
        &&& <(K0, K1, K2, K3, K4, K5, K6, K7, K8, K9, K10, K11, K12, K13, K14, K15) as InsertColumnValues<S, (V0, V1, V2, V3, V4, V5, V6, V7, V8, V9, V10, V11, V12, V13, V14, V15)>>::assigns((values.0, values.1, values.2, values.3, values.4, values.5, values.6, values.7, values.8, values.9, values.10, values.11, values.12, values.13, values.14, values.15), assignments.first)
        &&& <(K16,) as InsertColumnValues<S, (V16,)>>::assigns((values.16,), assignments.second)
    }

    fn into_insert_assignments(values: (V0, V1, V2, V3, V4, V5, V6, V7, V8, V9, V10, V11, V12, V13, V14, V15, V16)) -> (assignments: Self::Assignments) {
        let first = <(K0, K1, K2, K3, K4, K5, K6, K7, K8, K9, K10, K11, K12, K13, K14, K15) as InsertColumnValues<S, (V0, V1, V2, V3, V4, V5, V6, V7, V8, V9, V10, V11, V12, V13, V14, V15)>>::into_insert_assignments((values.0, values.1, values.2, values.3, values.4, values.5, values.6, values.7, values.8, values.9, values.10, values.11, values.12, values.13, values.14, values.15));
        let second = <(K16,) as InsertColumnValues<S, (V16,)>>::into_insert_assignments((values.16,));
        Joined { first, second }
    }
}

impl<
    S: InsertableTable,
    K0, K1, K2, K3, K4, K5, K6, K7, K8, K9, K10, K11, K12, K13, K14, K15, K16, K17,
    V0, V1, V2, V3, V4, V5, V6, V7, V8, V9, V10, V11, V12, V13, V14, V15, V16, V17,
> InsertColumnValues<S, (V0, V1, V2, V3, V4, V5, V6, V7, V8, V9, V10, V11, V12, V13, V14, V15, V16, V17)> for (K0, K1, K2, K3, K4, K5, K6, K7, K8, K9, K10, K11, K12, K13, K14, K15, K16, K17) where
    (K0, K1, K2, K3, K4, K5, K6, K7, K8, K9, K10, K11, K12, K13, K14, K15): InsertColumnValues<S, (V0, V1, V2, V3, V4, V5, V6, V7, V8, V9, V10, V11, V12, V13, V14, V15)>,
    (K16, K17): InsertColumnValues<S, (V16, V17)>,
    <<(K0, K1, K2, K3, K4, K5, K6, K7, K8, K9, K10, K11, K12, K13, K14, K15) as InsertColumnValues<S, (V0, V1, V2, V3, V4, V5, V6, V7, V8, V9, V10, V11, V12, V13, V14, V15)>>::Assignments as InsertAssignments>::Params: HAppend<
        <<(K16, K17) as InsertColumnValues<S, (V16, V17)>>::Assignments as InsertAssignments>::Params,
    >,
 {
    type Assignments = Joined<
        <(K0, K1, K2, K3, K4, K5, K6, K7, K8, K9, K10, K11, K12, K13, K14, K15) as InsertColumnValues<S, (V0, V1, V2, V3, V4, V5, V6, V7, V8, V9, V10, V11, V12, V13, V14, V15)>>::Assignments,
        <(K16, K17) as InsertColumnValues<S, (V16, V17)>>::Assignments,
    >;

    open spec fn column_names() -> Seq<&'static str> {
        <(K0, K1, K2, K3, K4, K5, K6, K7, K8, K9, K10, K11, K12, K13, K14, K15) as InsertColumnValues<S, (V0, V1, V2, V3, V4, V5, V6, V7, V8, V9, V10, V11, V12, V13, V14, V15)>>::column_names() + <(K16, K17) as InsertColumnValues<S, (V16, V17)>>::column_names()
    }

    open spec fn assigns(values: (V0, V1, V2, V3, V4, V5, V6, V7, V8, V9, V10, V11, V12, V13, V14, V15, V16, V17), assignments: Self::Assignments) -> bool {
        &&& <(K0, K1, K2, K3, K4, K5, K6, K7, K8, K9, K10, K11, K12, K13, K14, K15) as InsertColumnValues<S, (V0, V1, V2, V3, V4, V5, V6, V7, V8, V9, V10, V11, V12, V13, V14, V15)>>::assigns((values.0, values.1, values.2, values.3, values.4, values.5, values.6, values.7, values.8, values.9, values.10, values.11, values.12, values.13, values.14, values.15), assignments.first)
        &&& <(K16, K17) as InsertColumnValues<S, (V16, V17)>>::assigns((values.16, values.17), assignments.second)
    }

    fn into_insert_assignments(values: (V0, V1, V2, V3, V4, V5, V6, V7, V8, V9, V10, V11, V12, V13, V14, V15, V16, V17)) -> (assignments: Self::Assignments) {
        let first = <(K0, K1, K2, K3, K4, K5, K6, K7, K8, K9, K10, K11, K12, K13, K14, K15) as InsertColumnValues<S, (V0, V1, V2, V3, V4, V5, V6, V7, V8, V9, V10, V11, V12, V13, V14, V15)>>::into_insert_assignments((values.0, values.1, values.2, values.3, values.4, values.5, values.6, values.7, values.8, values.9, values.10, values.11, values.12, values.13, values.14, values.15));
        let second = <(K16, K17) as InsertColumnValues<S, (V16, V17)>>::into_insert_assignments((values.16, values.17));
        Joined { first, second }
    }
}

impl<
    S: InsertableTable,
    K0, K1, K2, K3, K4, K5, K6, K7, K8, K9, K10, K11, K12, K13, K14, K15, K16, K17, K18,
    V0, V1, V2, V3, V4, V5, V6, V7, V8, V9, V10, V11, V12, V13, V14, V15, V16, V17, V18,
> InsertColumnValues<S, (V0, V1, V2, V3, V4, V5, V6, V7, V8, V9, V10, V11, V12, V13, V14, V15, V16, V17, V18)> for (K0, K1, K2, K3, K4, K5, K6, K7, K8, K9, K10, K11, K12, K13, K14, K15, K16, K17, K18) where
    (K0, K1, K2, K3, K4, K5, K6, K7, K8, K9, K10, K11, K12, K13, K14, K15): InsertColumnValues<S, (V0, V1, V2, V3, V4, V5, V6, V7, V8, V9, V10, V11, V12, V13, V14, V15)>,
    (K16, K17, K18): InsertColumnValues<S, (V16, V17, V18)>,
    <<(K0, K1, K2, K3, K4, K5, K6, K7, K8, K9, K10, K11, K12, K13, K14, K15) as InsertColumnValues<S, (V0, V1, V2, V3, V4, V5, V6, V7, V8, V9, V10, V11, V12, V13, V14, V15)>>::Assignments as InsertAssignments>::Params: HAppend<
        <<(K16, K17, K18) as InsertColumnValues<S, (V16, V17, V18)>>::Assignments as InsertAssignments>::Params,
    >,
 {
    type Assignments = Joined<
        <(K0, K1, K2, K3, K4, K5, K6, K7, K8, K9, K10, K11, K12, K13, K14, K15) as InsertColumnValues<S, (V0, V1, V2, V3, V4, V5, V6, V7, V8, V9, V10, V11, V12, V13, V14, V15)>>::Assignments,
        <(K16, K17, K18) as InsertColumnValues<S, (V16, V17, V18)>>::Assignments,
    >;

    open spec fn column_names() -> Seq<&'static str> {
        <(K0, K1, K2, K3, K4, K5, K6, K7, K8, K9, K10, K11, K12, K13, K14, K15) as InsertColumnValues<S, (V0, V1, V2, V3, V4, V5, V6, V7, V8, V9, V10, V11, V12, V13, V14, V15)>>::column_names() + <(K16, K17, K18) as InsertColumnValues<S, (V16, V17, V18)>>::column_names()
    }

    open spec fn assigns(values: (V0, V1, V2, V3, V4, V5, V6, V7, V8, V9, V10, V11, V12, V13, V14, V15, V16, V17, V18), assignments: Self::Assignments) -> bool {
        &&& <(K0, K1, K2, K3, K4, K5, K6, K7, K8, K9, K10, K11, K12, K13, K14, K15) as InsertColumnValues<S, (V0, V1, V2, V3, V4, V5, V6, V7, V8, V9, V10, V11, V12, V13, V14, V15)>>::assigns((values.0, values.1, values.2, values.3, values.4, values.5, values.6, values.7, values.8, values.9, values.10, values.11, values.12, values.13, values.14, values.15), assignments.first)
        &&& <(K16, K17, K18) as InsertColumnValues<S, (V16, V17, V18)>>::assigns((values.16, values.17, values.18), assignments.second)
    }

    fn into_insert_assignments(values: (V0, V1, V2, V3, V4, V5, V6, V7, V8, V9, V10, V11, V12, V13, V14, V15, V16, V17, V18)) -> (assignments: Self::Assignments) {
        let first = <(K0, K1, K2, K3, K4, K5, K6, K7, K8, K9, K10, K11, K12, K13, K14, K15) as InsertColumnValues<S, (V0, V1, V2, V3, V4, V5, V6, V7, V8, V9, V10, V11, V12, V13, V14, V15)>>::into_insert_assignments((values.0, values.1, values.2, values.3, values.4, values.5, values.6, values.7, values.8, values.9, values.10, values.11, values.12, values.13, values.14, values.15));
        let second = <(K16, K17, K18) as InsertColumnValues<S, (V16, V17, V18)>>::into_insert_assignments((values.16, values.17, values.18));
        Joined { first, second }
    }
}

impl<
    S: InsertableTable,
    K0, K1, K2, K3, K4, K5, K6, K7, K8, K9, K10, K11, K12, K13, K14, K15, K16, K17, K18, K19,
    V0, V1, V2, V3, V4, V5, V6, V7, V8, V9, V10, V11, V12, V13, V14, V15, V16, V17, V18, V19,
> InsertColumnValues<S, (V0, V1, V2, V3, V4, V5, V6, V7, V8, V9, V10, V11, V12, V13, V14, V15, V16, V17, V18, V19)> for (K0, K1, K2, K3, K4, K5, K6, K7, K8, K9, K10, K11, K12, K13, K14, K15, K16, K17, K18, K19) where
    (K0, K1, K2, K3, K4, K5, K6, K7, K8, K9, K10, K11, K12, K13, K14, K15): InsertColumnValues<S, (V0, V1, V2, V3, V4, V5, V6, V7, V8, V9, V10, V11, V12, V13, V14, V15)>,
    (K16, K17, K18, K19): InsertColumnValues<S, (V16, V17, V18, V19)>,
    <<(K0, K1, K2, K3, K4, K5, K6, K7, K8, K9, K10, K11, K12, K13, K14, K15) as InsertColumnValues<S, (V0, V1, V2, V3, V4, V5, V6, V7, V8, V9, V10, V11, V12, V13, V14, V15)>>::Assignments as InsertAssignments>::Params: HAppend<
        <<(K16, K17, K18, K19) as InsertColumnValues<S, (V16, V17, V18, V19)>>::Assignments as InsertAssignments>::Params,
    >,
 {
    type Assignments = Joined<
        <(K0, K1, K2, K3, K4, K5, K6, K7, K8, K9, K10, K11, K12, K13, K14, K15) as InsertColumnValues<S, (V0, V1, V2, V3, V4, V5, V6, V7, V8, V9, V10, V11, V12, V13, V14, V15)>>::Assignments,
        <(K16, K17, K18, K19) as InsertColumnValues<S, (V16, V17, V18, V19)>>::Assignments,
    >;

    open spec fn column_names() -> Seq<&'static str> {
        <(K0, K1, K2, K3, K4, K5, K6, K7, K8, K9, K10, K11, K12, K13, K14, K15) as InsertColumnValues<S, (V0, V1, V2, V3, V4, V5, V6, V7, V8, V9, V10, V11, V12, V13, V14, V15)>>::column_names() + <(K16, K17, K18, K19) as InsertColumnValues<S, (V16, V17, V18, V19)>>::column_names()
    }

    open spec fn assigns(values: (V0, V1, V2, V3, V4, V5, V6, V7, V8, V9, V10, V11, V12, V13, V14, V15, V16, V17, V18, V19), assignments: Self::Assignments) -> bool {
        &&& <(K0, K1, K2, K3, K4, K5, K6, K7, K8, K9, K10, K11, K12, K13, K14, K15) as InsertColumnValues<S, (V0, V1, V2, V3, V4, V5, V6, V7, V8, V9, V10, V11, V12, V13, V14, V15)>>::assigns((values.0, values.1, values.2, values.3, values.4, values.5, values.6, values.7, values.8, values.9, values.10, values.11, values.12, values.13, values.14, values.15), assignments.first)
        &&& <(K16, K17, K18, K19) as InsertColumnValues<S, (V16, V17, V18, V19)>>::assigns((values.16, values.17, values.18, values.19), assignments.second)
    }

    fn into_insert_assignments(values: (V0, V1, V2, V3, V4, V5, V6, V7, V8, V9, V10, V11, V12, V13, V14, V15, V16, V17, V18, V19)) -> (assignments: Self::Assignments) {
        let first = <(K0, K1, K2, K3, K4, K5, K6, K7, K8, K9, K10, K11, K12, K13, K14, K15) as InsertColumnValues<S, (V0, V1, V2, V3, V4, V5, V6, V7, V8, V9, V10, V11, V12, V13, V14, V15)>>::into_insert_assignments((values.0, values.1, values.2, values.3, values.4, values.5, values.6, values.7, values.8, values.9, values.10, values.11, values.12, values.13, values.14, values.15));
        let second = <(K16, K17, K18, K19) as InsertColumnValues<S, (V16, V17, V18, V19)>>::into_insert_assignments((values.16, values.17, values.18, values.19));
        Joined { first, second }
    }
}

impl<
    S: InsertableTable,
    K0, K1, K2, K3, K4, K5, K6, K7, K8, K9, K10, K11, K12, K13, K14, K15, K16, K17, K18, K19, K20,
    V0, V1, V2, V3, V4, V5, V6, V7, V8, V9, V10, V11, V12, V13, V14, V15, V16, V17, V18, V19, V20,
> InsertColumnValues<S, (V0, V1, V2, V3, V4, V5, V6, V7, V8, V9, V10, V11, V12, V13, V14, V15, V16, V17, V18, V19, V20)> for (K0, K1, K2, K3, K4, K5, K6, K7, K8, K9, K10, K11, K12, K13, K14, K15, K16, K17, K18, K19, K20) where
    (K0, K1, K2, K3, K4, K5, K6, K7, K8, K9, K10, K11, K12, K13, K14, K15): InsertColumnValues<S, (V0, V1, V2, V3, V4, V5, V6, V7, V8, V9, V10, V11, V12, V13, V14, V15)>,
    (K16, K17, K18, K19, K20): InsertColumnValues<S, (V16, V17, V18, V19, V20)>,
    <<(K0, K1, K2, K3, K4, K5, K6, K7, K8, K9, K10, K11, K12, K13, K14, K15) as InsertColumnValues<S, (V0, V1, V2, V3, V4, V5, V6, V7, V8, V9, V10, V11, V12, V13, V14, V15)>>::Assignments as InsertAssignments>::Params: HAppend<
        <<(K16, K17, K18, K19, K20) as InsertColumnValues<S, (V16, V17, V18, V19, V20)>>::Assignments as InsertAssignments>::Params,
    >,
 {
    type Assignments = Joined<
        <(K0, K1, K2, K3, K4, K5, K6, K7, K8, K9, K10, K11, K12, K13, K14, K15) as InsertColumnValues<S, (V0, V1, V2, V3, V4, V5, V6, V7, V8, V9, V10, V11, V12, V13, V14, V15)>>::Assignments,
        <(K16, K17, K18, K19, K20) as InsertColumnValues<S, (V16, V17, V18, V19, V20)>>::Assignments,
    >;

    open spec fn column_names() -> Seq<&'static str> {
        <(K0, K1, K2, K3, K4, K5, K6, K7, K8, K9, K10, K11, K12, K13, K14, K15) as InsertColumnValues<S, (V0, V1, V2, V3, V4, V5, V6, V7, V8, V9, V10, V11, V12, V13, V14, V15)>>::column_names() + <(K16, K17, K18, K19, K20) as InsertColumnValues<S, (V16, V17, V18, V19, V20)>>::column_names()
    }

    open spec fn assigns(values: (V0, V1, V2, V3, V4, V5, V6, V7, V8, V9, V10, V11, V12, V13, V14, V15, V16, V17, V18, V19, V20), assignments: Self::Assignments) -> bool {
        &&& <(K0, K1, K2, K3, K4, K5, K6, K7, K8, K9, K10, K11, K12, K13, K14, K15) as InsertColumnValues<S, (V0, V1, V2, V3, V4, V5, V6, V7, V8, V9, V10, V11, V12, V13, V14, V15)>>::assigns((values.0, values.1, values.2, values.3, values.4, values.5, values.6, values.7, values.8, values.9, values.10, values.11, values.12, values.13, values.14, values.15), assignments.first)
        &&& <(K16, K17, K18, K19, K20) as InsertColumnValues<S, (V16, V17, V18, V19, V20)>>::assigns((values.16, values.17, values.18, values.19, values.20), assignments.second)
    }

    fn into_insert_assignments(values: (V0, V1, V2, V3, V4, V5, V6, V7, V8, V9, V10, V11, V12, V13, V14, V15, V16, V17, V18, V19, V20)) -> (assignments: Self::Assignments) {
        let first = <(K0, K1, K2, K3, K4, K5, K6, K7, K8, K9, K10, K11, K12, K13, K14, K15) as InsertColumnValues<S, (V0, V1, V2, V3, V4, V5, V6, V7, V8, V9, V10, V11, V12, V13, V14, V15)>>::into_insert_assignments((values.0, values.1, values.2, values.3, values.4, values.5, values.6, values.7, values.8, values.9, values.10, values.11, values.12, values.13, values.14, values.15));
        let second = <(K16, K17, K18, K19, K20) as InsertColumnValues<S, (V16, V17, V18, V19, V20)>>::into_insert_assignments((values.16, values.17, values.18, values.19, values.20));
        Joined { first, second }
    }
}

impl<
    S: InsertableTable,
    K0, K1, K2, K3, K4, K5, K6, K7, K8, K9, K10, K11, K12, K13, K14, K15, K16, K17, K18, K19, K20, K21,
    V0, V1, V2, V3, V4, V5, V6, V7, V8, V9, V10, V11, V12, V13, V14, V15, V16, V17, V18, V19, V20, V21,
> InsertColumnValues<S, (V0, V1, V2, V3, V4, V5, V6, V7, V8, V9, V10, V11, V12, V13, V14, V15, V16, V17, V18, V19, V20, V21)> for (K0, K1, K2, K3, K4, K5, K6, K7, K8, K9, K10, K11, K12, K13, K14, K15, K16, K17, K18, K19, K20, K21) where
    (K0, K1, K2, K3, K4, K5, K6, K7, K8, K9, K10, K11, K12, K13, K14, K15): InsertColumnValues<S, (V0, V1, V2, V3, V4, V5, V6, V7, V8, V9, V10, V11, V12, V13, V14, V15)>,
    (K16, K17, K18, K19, K20, K21): InsertColumnValues<S, (V16, V17, V18, V19, V20, V21)>,
    <<(K0, K1, K2, K3, K4, K5, K6, K7, K8, K9, K10, K11, K12, K13, K14, K15) as InsertColumnValues<S, (V0, V1, V2, V3, V4, V5, V6, V7, V8, V9, V10, V11, V12, V13, V14, V15)>>::Assignments as InsertAssignments>::Params: HAppend<
        <<(K16, K17, K18, K19, K20, K21) as InsertColumnValues<S, (V16, V17, V18, V19, V20, V21)>>::Assignments as InsertAssignments>::Params,
    >,
 {
    type Assignments = Joined<
        <(K0, K1, K2, K3, K4, K5, K6, K7, K8, K9, K10, K11, K12, K13, K14, K15) as InsertColumnValues<S, (V0, V1, V2, V3, V4, V5, V6, V7, V8, V9, V10, V11, V12, V13, V14, V15)>>::Assignments,
        <(K16, K17, K18, K19, K20, K21) as InsertColumnValues<S, (V16, V17, V18, V19, V20, V21)>>::Assignments,
    >;

    open spec fn column_names() -> Seq<&'static str> {
        <(K0, K1, K2, K3, K4, K5, K6, K7, K8, K9, K10, K11, K12, K13, K14, K15) as InsertColumnValues<S, (V0, V1, V2, V3, V4, V5, V6, V7, V8, V9, V10, V11, V12, V13, V14, V15)>>::column_names() + <(K16, K17, K18, K19, K20, K21) as InsertColumnValues<S, (V16, V17, V18, V19, V20, V21)>>::column_names()
    }

    open spec fn assigns(values: (V0, V1, V2, V3, V4, V5, V6, V7, V8, V9, V10, V11, V12, V13, V14, V15, V16, V17, V18, V19, V20, V21), assignments: Self::Assignments) -> bool {
        &&& <(K0, K1, K2, K3, K4, K5, K6, K7, K8, K9, K10, K11, K12, K13, K14, K15) as InsertColumnValues<S, (V0, V1, V2, V3, V4, V5, V6, V7, V8, V9, V10, V11, V12, V13, V14, V15)>>::assigns((values.0, values.1, values.2, values.3, values.4, values.5, values.6, values.7, values.8, values.9, values.10, values.11, values.12, values.13, values.14, values.15), assignments.first)
        &&& <(K16, K17, K18, K19, K20, K21) as InsertColumnValues<S, (V16, V17, V18, V19, V20, V21)>>::assigns((values.16, values.17, values.18, values.19, values.20, values.21), assignments.second)
    }

    fn into_insert_assignments(values: (V0, V1, V2, V3, V4, V5, V6, V7, V8, V9, V10, V11, V12, V13, V14, V15, V16, V17, V18, V19, V20, V21)) -> (assignments: Self::Assignments) {
        let first = <(K0, K1, K2, K3, K4, K5, K6, K7, K8, K9, K10, K11, K12, K13, K14, K15) as InsertColumnValues<S, (V0, V1, V2, V3, V4, V5, V6, V7, V8, V9, V10, V11, V12, V13, V14, V15)>>::into_insert_assignments((values.0, values.1, values.2, values.3, values.4, values.5, values.6, values.7, values.8, values.9, values.10, values.11, values.12, values.13, values.14, values.15));
        let second = <(K16, K17, K18, K19, K20, K21) as InsertColumnValues<S, (V16, V17, V18, V19, V20, V21)>>::into_insert_assignments((values.16, values.17, values.18, values.19, values.20, values.21));
        Joined { first, second }
    }
}

impl<
    S: InsertableTable,
    K0, K1, K2, K3, K4, K5, K6, K7, K8, K9, K10, K11, K12, K13, K14, K15, K16, K17, K18, K19, K20, K21, K22,
    V0, V1, V2, V3, V4, V5, V6, V7, V8, V9, V10, V11, V12, V13, V14, V15, V16, V17, V18, V19, V20, V21, V22,
> InsertColumnValues<S, (V0, V1, V2, V3, V4, V5, V6, V7, V8, V9, V10, V11, V12, V13, V14, V15, V16, V17, V18, V19, V20, V21, V22)> for (K0, K1, K2, K3, K4, K5, K6, K7, K8, K9, K10, K11, K12, K13, K14, K15, K16, K17, K18, K19, K20, K21, K22) where
    (K0, K1, K2, K3, K4, K5, K6, K7, K8, K9, K10, K11, K12, K13, K14, K15): InsertColumnValues<S, (V0, V1, V2, V3, V4, V5, V6, V7, V8, V9, V10, V11, V12, V13, V14, V15)>,
    (K16, K17, K18, K19, K20, K21, K22): InsertColumnValues<S, (V16, V17, V18, V19, V20, V21, V22)>,
    <<(K0, K1, K2, K3, K4, K5, K6, K7, K8, K9, K10, K11, K12, K13, K14, K15) as InsertColumnValues<S, (V0, V1, V2, V3, V4, V5, V6, V7, V8, V9, V10, V11, V12, V13, V14, V15)>>::Assignments as InsertAssignments>::Params: HAppend<
        <<(K16, K17, K18, K19, K20, K21, K22) as InsertColumnValues<S, (V16, V17, V18, V19, V20, V21, V22)>>::Assignments as InsertAssignments>::Params,
    >,
 {
    type Assignments = Joined<
        <(K0, K1, K2, K3, K4, K5, K6, K7, K8, K9, K10, K11, K12, K13, K14, K15) as InsertColumnValues<S, (V0, V1, V2, V3, V4, V5, V6, V7, V8, V9, V10, V11, V12, V13, V14, V15)>>::Assignments,
        <(K16, K17, K18, K19, K20, K21, K22) as InsertColumnValues<S, (V16, V17, V18, V19, V20, V21, V22)>>::Assignments,
    >;

    open spec fn column_names() -> Seq<&'static str> {
        <(K0, K1, K2, K3, K4, K5, K6, K7, K8, K9, K10, K11, K12, K13, K14, K15) as InsertColumnValues<S, (V0, V1, V2, V3, V4, V5, V6, V7, V8, V9, V10, V11, V12, V13, V14, V15)>>::column_names() + <(K16, K17, K18, K19, K20, K21, K22) as InsertColumnValues<S, (V16, V17, V18, V19, V20, V21, V22)>>::column_names()
    }

    open spec fn assigns(values: (V0, V1, V2, V3, V4, V5, V6, V7, V8, V9, V10, V11, V12, V13, V14, V15, V16, V17, V18, V19, V20, V21, V22), assignments: Self::Assignments) -> bool {
        &&& <(K0, K1, K2, K3, K4, K5, K6, K7, K8, K9, K10, K11, K12, K13, K14, K15) as InsertColumnValues<S, (V0, V1, V2, V3, V4, V5, V6, V7, V8, V9, V10, V11, V12, V13, V14, V15)>>::assigns((values.0, values.1, values.2, values.3, values.4, values.5, values.6, values.7, values.8, values.9, values.10, values.11, values.12, values.13, values.14, values.15), assignments.first)
        &&& <(K16, K17, K18, K19, K20, K21, K22) as InsertColumnValues<S, (V16, V17, V18, V19, V20, V21, V22)>>::assigns((values.16, values.17, values.18, values.19, values.20, values.21, values.22), assignments.second)
    }

    fn into_insert_assignments(values: (V0, V1, V2, V3, V4, V5, V6, V7, V8, V9, V10, V11, V12, V13, V14, V15, V16, V17, V18, V19, V20, V21, V22)) -> (assignments: Self::Assignments) {
        let first = <(K0, K1, K2, K3, K4, K5, K6, K7, K8, K9, K10, K11, K12, K13, K14, K15) as InsertColumnValues<S, (V0, V1, V2, V3, V4, V5, V6, V7, V8, V9, V10, V11, V12, V13, V14, V15)>>::into_insert_assignments((values.0, values.1, values.2, values.3, values.4, values.5, values.6, values.7, values.8, values.9, values.10, values.11, values.12, values.13, values.14, values.15));
        let second = <(K16, K17, K18, K19, K20, K21, K22) as InsertColumnValues<S, (V16, V17, V18, V19, V20, V21, V22)>>::into_insert_assignments((values.16, values.17, values.18, values.19, values.20, values.21, values.22));
        Joined { first, second }
    }
}

impl<
    S: InsertableTable,
    K0, K1, K2, K3, K4, K5, K6, K7, K8, K9, K10, K11, K12, K13, K14, K15, K16, K17, K18, K19, K20, K21, K22, K23,
    V0, V1, V2, V3, V4, V5, V6, V7, V8, V9, V10, V11, V12, V13, V14, V15, V16, V17, V18, V19, V20, V21, V22, V23,
> InsertColumnValues<S, (V0, V1, V2, V3, V4, V5, V6, V7, V8, V9, V10, V11, V12, V13, V14, V15, V16, V17, V18, V19, V20, V21, V22, V23)> for (K0, K1, K2, K3, K4, K5, K6, K7, K8, K9, K10, K11, K12, K13, K14, K15, K16, K17, K18, K19, K20, K21, K22, K23) where
    (K0, K1, K2, K3, K4, K5, K6, K7, K8, K9, K10, K11, K12, K13, K14, K15): InsertColumnValues<S, (V0, V1, V2, V3, V4, V5, V6, V7, V8, V9, V10, V11, V12, V13, V14, V15)>,
    (K16, K17, K18, K19, K20, K21, K22, K23): InsertColumnValues<S, (V16, V17, V18, V19, V20, V21, V22, V23)>,
    <<(K0, K1, K2, K3, K4, K5, K6, K7, K8, K9, K10, K11, K12, K13, K14, K15) as InsertColumnValues<S, (V0, V1, V2, V3, V4, V5, V6, V7, V8, V9, V10, V11, V12, V13, V14, V15)>>::Assignments as InsertAssignments>::Params: HAppend<
        <<(K16, K17, K18, K19, K20, K21, K22, K23) as InsertColumnValues<S, (V16, V17, V18, V19, V20, V21, V22, V23)>>::Assignments as InsertAssignments>::Params,
    >,
 {
    type Assignments = Joined<
        <(K0, K1, K2, K3, K4, K5, K6, K7, K8, K9, K10, K11, K12, K13, K14, K15) as InsertColumnValues<S, (V0, V1, V2, V3, V4, V5, V6, V7, V8, V9, V10, V11, V12, V13, V14, V15)>>::Assignments,
        <(K16, K17, K18, K19, K20, K21, K22, K23) as InsertColumnValues<S, (V16, V17, V18, V19, V20, V21, V22, V23)>>::Assignments,
    >;

    open spec fn column_names() -> Seq<&'static str> {
        <(K0, K1, K2, K3, K4, K5, K6, K7, K8, K9, K10, K11, K12, K13, K14, K15) as InsertColumnValues<S, (V0, V1, V2, V3, V4, V5, V6, V7, V8, V9, V10, V11, V12, V13, V14, V15)>>::column_names() + <(K16, K17, K18, K19, K20, K21, K22, K23) as InsertColumnValues<S, (V16, V17, V18, V19, V20, V21, V22, V23)>>::column_names()
    }

    open spec fn assigns(values: (V0, V1, V2, V3, V4, V5, V6, V7, V8, V9, V10, V11, V12, V13, V14, V15, V16, V17, V18, V19, V20, V21, V22, V23), assignments: Self::Assignments) -> bool {
        &&& <(K0, K1, K2, K3, K4, K5, K6, K7, K8, K9, K10, K11, K12, K13, K14, K15) as InsertColumnValues<S, (V0, V1, V2, V3, V4, V5, V6, V7, V8, V9, V10, V11, V12, V13, V14, V15)>>::assigns((values.0, values.1, values.2, values.3, values.4, values.5, values.6, values.7, values.8, values.9, values.10, values.11, values.12, values.13, values.14, values.15), assignments.first)
        &&& <(K16, K17, K18, K19, K20, K21, K22, K23) as InsertColumnValues<S, (V16, V17, V18, V19, V20, V21, V22, V23)>>::assigns((values.16, values.17, values.18, values.19, values.20, values.21, values.22, values.23), assignments.second)
    }

    fn into_insert_assignments(values: (V0, V1, V2, V3, V4, V5, V6, V7, V8, V9, V10, V11, V12, V13, V14, V15, V16, V17, V18, V19, V20, V21, V22, V23)) -> (assignments: Self::Assignments) {
        let first = <(K0, K1, K2, K3, K4, K5, K6, K7, K8, K9, K10, K11, K12, K13, K14, K15) as InsertColumnValues<S, (V0, V1, V2, V3, V4, V5, V6, V7, V8, V9, V10, V11, V12, V13, V14, V15)>>::into_insert_assignments((values.0, values.1, values.2, values.3, values.4, values.5, values.6, values.7, values.8, values.9, values.10, values.11, values.12, values.13, values.14, values.15));
        let second = <(K16, K17, K18, K19, K20, K21, K22, K23) as InsertColumnValues<S, (V16, V17, V18, V19, V20, V21, V22, V23)>>::into_insert_assignments((values.16, values.17, values.18, values.19, values.20, values.21, values.22, values.23));
        Joined { first, second }
    }
}

impl<
    S: InsertableTable,
    K0, K1, K2, K3, K4, K5, K6, K7, K8, K9, K10, K11, K12, K13, K14, K15, K16, K17, K18, K19, K20, K21, K22, K23, K24,
    V0, V1, V2, V3, V4, V5, V6, V7, V8, V9, V10, V11, V12, V13, V14, V15, V16, V17, V18, V19, V20, V21, V22, V23, V24,
> InsertColumnValues<S, (V0, V1, V2, V3, V4, V5, V6, V7, V8, V9, V10, V11, V12, V13, V14, V15, V16, V17, V18, V19, V20, V21, V22, V23, V24)> for (K0, K1, K2, K3, K4, K5, K6, K7, K8, K9, K10, K11, K12, K13, K14, K15, K16, K17, K18, K19, K20, K21, K22, K23, K24) where
    (K0, K1, K2, K3, K4, K5, K6, K7, K8, K9, K10, K11, K12, K13, K14, K15): InsertColumnValues<S, (V0, V1, V2, V3, V4, V5, V6, V7, V8, V9, V10, V11, V12, V13, V14, V15)>,
    (K16, K17, K18, K19, K20, K21, K22, K23, K24): InsertColumnValues<S, (V16, V17, V18, V19, V20, V21, V22, V23, V24)>,
    <<(K0, K1, K2, K3, K4, K5, K6, K7, K8, K9, K10, K11, K12, K13, K14, K15) as InsertColumnValues<S, (V0, V1, V2, V3, V4, V5, V6, V7, V8, V9, V10, V11, V12, V13, V14, V15)>>::Assignments as InsertAssignments>::Params: HAppend<
        <<(K16, K17, K18, K19, K20, K21, K22, K23, K24) as InsertColumnValues<S, (V16, V17, V18, V19, V20, V21, V22, V23, V24)>>::Assignments as InsertAssignments>::Params,
    >,
 {
    type Assignments = Joined<
        <(K0, K1, K2, K3, K4, K5, K6, K7, K8, K9, K10, K11, K12, K13, K14, K15) as InsertColumnValues<S, (V0, V1, V2, V3, V4, V5, V6, V7, V8, V9, V10, V11, V12, V13, V14, V15)>>::Assignments,
        <(K16, K17, K18, K19, K20, K21, K22, K23, K24) as InsertColumnValues<S, (V16, V17, V18, V19, V20, V21, V22, V23, V24)>>::Assignments,
    >;

    open spec fn column_names() -> Seq<&'static str> {
        <(K0, K1, K2, K3, K4, K5, K6, K7, K8, K9, K10, K11, K12, K13, K14, K15) as InsertColumnValues<S, (V0, V1, V2, V3, V4, V5, V6, V7, V8, V9, V10, V11, V12, V13, V14, V15)>>::column_names() + <(K16, K17, K18, K19, K20, K21, K22, K23, K24) as InsertColumnValues<S, (V16, V17, V18, V19, V20, V21, V22, V23, V24)>>::column_names()
    }

    open spec fn assigns(values: (V0, V1, V2, V3, V4, V5, V6, V7, V8, V9, V10, V11, V12, V13, V14, V15, V16, V17, V18, V19, V20, V21, V22, V23, V24), assignments: Self::Assignments) -> bool {
        &&& <(K0, K1, K2, K3, K4, K5, K6, K7, K8, K9, K10, K11, K12, K13, K14, K15) as InsertColumnValues<S, (V0, V1, V2, V3, V4, V5, V6, V7, V8, V9, V10, V11, V12, V13, V14, V15)>>::assigns((values.0, values.1, values.2, values.3, values.4, values.5, values.6, values.7, values.8, values.9, values.10, values.11, values.12, values.13, values.14, values.15), assignments.first)
        &&& <(K16, K17, K18, K19, K20, K21, K22, K23, K24) as InsertColumnValues<S, (V16, V17, V18, V19, V20, V21, V22, V23, V24)>>::assigns((values.16, values.17, values.18, values.19, values.20, values.21, values.22, values.23, values.24), assignments.second)
    }

    fn into_insert_assignments(values: (V0, V1, V2, V3, V4, V5, V6, V7, V8, V9, V10, V11, V12, V13, V14, V15, V16, V17, V18, V19, V20, V21, V22, V23, V24)) -> (assignments: Self::Assignments) {
        let first = <(K0, K1, K2, K3, K4, K5, K6, K7, K8, K9, K10, K11, K12, K13, K14, K15) as InsertColumnValues<S, (V0, V1, V2, V3, V4, V5, V6, V7, V8, V9, V10, V11, V12, V13, V14, V15)>>::into_insert_assignments((values.0, values.1, values.2, values.3, values.4, values.5, values.6, values.7, values.8, values.9, values.10, values.11, values.12, values.13, values.14, values.15));
        let second = <(K16, K17, K18, K19, K20, K21, K22, K23, K24) as InsertColumnValues<S, (V16, V17, V18, V19, V20, V21, V22, V23, V24)>>::into_insert_assignments((values.16, values.17, values.18, values.19, values.20, values.21, values.22, values.23, values.24));
        Joined { first, second }
    }
}

impl<
    S: InsertableTable,
    K0, K1, K2, K3, K4, K5, K6, K7, K8, K9, K10, K11, K12, K13, K14, K15, K16, K17, K18, K19, K20, K21, K22, K23, K24, K25,
    V0, V1, V2, V3, V4, V5, V6, V7, V8, V9, V10, V11, V12, V13, V14, V15, V16, V17, V18, V19, V20, V21, V22, V23, V24, V25,
> InsertColumnValues<S, (V0, V1, V2, V3, V4, V5, V6, V7, V8, V9, V10, V11, V12, V13, V14, V15, V16, V17, V18, V19, V20, V21, V22, V23, V24, V25)> for (K0, K1, K2, K3, K4, K5, K6, K7, K8, K9, K10, K11, K12, K13, K14, K15, K16, K17, K18, K19, K20, K21, K22, K23, K24, K25) where
    (K0, K1, K2, K3, K4, K5, K6, K7, K8, K9, K10, K11, K12, K13, K14, K15): InsertColumnValues<S, (V0, V1, V2, V3, V4, V5, V6, V7, V8, V9, V10, V11, V12, V13, V14, V15)>,
    (K16, K17, K18, K19, K20, K21, K22, K23, K24, K25): InsertColumnValues<S, (V16, V17, V18, V19, V20, V21, V22, V23, V24, V25)>,
    <<(K0, K1, K2, K3, K4, K5, K6, K7, K8, K9, K10, K11, K12, K13, K14, K15) as InsertColumnValues<S, (V0, V1, V2, V3, V4, V5, V6, V7, V8, V9, V10, V11, V12, V13, V14, V15)>>::Assignments as InsertAssignments>::Params: HAppend<
        <<(K16, K17, K18, K19, K20, K21, K22, K23, K24, K25) as InsertColumnValues<S, (V16, V17, V18, V19, V20, V21, V22, V23, V24, V25)>>::Assignments as InsertAssignments>::Params,
    >,
 {
    type Assignments = Joined<
        <(K0, K1, K2, K3, K4, K5, K6, K7, K8, K9, K10, K11, K12, K13, K14, K15) as InsertColumnValues<S, (V0, V1, V2, V3, V4, V5, V6, V7, V8, V9, V10, V11, V12, V13, V14, V15)>>::Assignments,
        <(K16, K17, K18, K19, K20, K21, K22, K23, K24, K25) as InsertColumnValues<S, (V16, V17, V18, V19, V20, V21, V22, V23, V24, V25)>>::Assignments,
    >;

    open spec fn column_names() -> Seq<&'static str> {
        <(K0, K1, K2, K3, K4, K5, K6, K7, K8, K9, K10, K11, K12, K13, K14, K15) as InsertColumnValues<S, (V0, V1, V2, V3, V4, V5, V6, V7, V8, V9, V10, V11, V12, V13, V14, V15)>>::column_names() + <(K16, K17, K18, K19, K20, K21, K22, K23, K24, K25) as InsertColumnValues<S, (V16, V17, V18, V19, V20, V21, V22, V23, V24, V25)>>::column_names()
    }

    open spec fn assigns(values: (V0, V1, V2, V3, V4, V5, V6, V7, V8, V9, V10, V11, V12, V13, V14, V15, V16, V17, V18, V19, V20, V21, V22, V23, V24, V25), assignments: Self::Assignments) -> bool {
        &&& <(K0, K1, K2, K3, K4, K5, K6, K7, K8, K9, K10, K11, K12, K13, K14, K15) as InsertColumnValues<S, (V0, V1, V2, V3, V4, V5, V6, V7, V8, V9, V10, V11, V12, V13, V14, V15)>>::assigns((values.0, values.1, values.2, values.3, values.4, values.5, values.6, values.7, values.8, values.9, values.10, values.11, values.12, values.13, values.14, values.15), assignments.first)
        &&& <(K16, K17, K18, K19, K20, K21, K22, K23, K24, K25) as InsertColumnValues<S, (V16, V17, V18, V19, V20, V21, V22, V23, V24, V25)>>::assigns((values.16, values.17, values.18, values.19, values.20, values.21, values.22, values.23, values.24, values.25), assignments.second)
    }

    fn into_insert_assignments(values: (V0, V1, V2, V3, V4, V5, V6, V7, V8, V9, V10, V11, V12, V13, V14, V15, V16, V17, V18, V19, V20, V21, V22, V23, V24, V25)) -> (assignments: Self::Assignments) {
        let first = <(K0, K1, K2, K3, K4, K5, K6, K7, K8, K9, K10, K11, K12, K13, K14, K15) as InsertColumnValues<S, (V0, V1, V2, V3, V4, V5, V6, V7, V8, V9, V10, V11, V12, V13, V14, V15)>>::into_insert_assignments((values.0, values.1, values.2, values.3, values.4, values.5, values.6, values.7, values.8, values.9, values.10, values.11, values.12, values.13, values.14, values.15));
        let second = <(K16, K17, K18, K19, K20, K21, K22, K23, K24, K25) as InsertColumnValues<S, (V16, V17, V18, V19, V20, V21, V22, V23, V24, V25)>>::into_insert_assignments((values.16, values.17, values.18, values.19, values.20, values.21, values.22, values.23, values.24, values.25));
        Joined { first, second }
    }
}

impl<
    S: InsertableTable,
    K0, K1, K2, K3, K4, K5, K6, K7, K8, K9, K10, K11, K12, K13, K14, K15, K16, K17, K18, K19, K20, K21, K22, K23, K24, K25, K26,
    V0, V1, V2, V3, V4, V5, V6, V7, V8, V9, V10, V11, V12, V13, V14, V15, V16, V17, V18, V19, V20, V21, V22, V23, V24, V25, V26,
> InsertColumnValues<S, (V0, V1, V2, V3, V4, V5, V6, V7, V8, V9, V10, V11, V12, V13, V14, V15, V16, V17, V18, V19, V20, V21, V22, V23, V24, V25, V26)> for (K0, K1, K2, K3, K4, K5, K6, K7, K8, K9, K10, K11, K12, K13, K14, K15, K16, K17, K18, K19, K20, K21, K22, K23, K24, K25, K26) where
    (K0, K1, K2, K3, K4, K5, K6, K7, K8, K9, K10, K11, K12, K13, K14, K15): InsertColumnValues<S, (V0, V1, V2, V3, V4, V5, V6, V7, V8, V9, V10, V11, V12, V13, V14, V15)>,
    (K16, K17, K18, K19, K20, K21, K22, K23, K24, K25, K26): InsertColumnValues<S, (V16, V17, V18, V19, V20, V21, V22, V23, V24, V25, V26)>,
    <<(K0, K1, K2, K3, K4, K5, K6, K7, K8, K9, K10, K11, K12, K13, K14, K15) as InsertColumnValues<S, (V0, V1, V2, V3, V4, V5, V6, V7, V8, V9, V10, V11, V12, V13, V14, V15)>>::Assignments as InsertAssignments>::Params: HAppend<
        <<(K16, K17, K18, K19, K20, K21, K22, K23, K24, K25, K26) as InsertColumnValues<S, (V16, V17, V18, V19, V20, V21, V22, V23, V24, V25, V26)>>::Assignments as InsertAssignments>::Params,
    >,
 {
    type Assignments = Joined<
        <(K0, K1, K2, K3, K4, K5, K6, K7, K8, K9, K10, K11, K12, K13, K14, K15) as InsertColumnValues<S, (V0, V1, V2, V3, V4, V5, V6, V7, V8, V9, V10, V11, V12, V13, V14, V15)>>::Assignments,
        <(K16, K17, K18, K19, K20, K21, K22, K23, K24, K25, K26) as InsertColumnValues<S, (V16, V17, V18, V19, V20, V21, V22, V23, V24, V25, V26)>>::Assignments,
    >;

    open spec fn column_names() -> Seq<&'static str> {
        <(K0, K1, K2, K3, K4, K5, K6, K7, K8, K9, K10, K11, K12, K13, K14, K15) as InsertColumnValues<S, (V0, V1, V2, V3, V4, V5, V6, V7, V8, V9, V10, V11, V12, V13, V14, V15)>>::column_names() + <(K16, K17, K18, K19, K20, K21, K22, K23, K24, K25, K26) as InsertColumnValues<S, (V16, V17, V18, V19, V20, V21, V22, V23, V24, V25, V26)>>::column_names()
    }

    open spec fn assigns(values: (V0, V1, V2, V3, V4, V5, V6, V7, V8, V9, V10, V11, V12, V13, V14, V15, V16, V17, V18, V19, V20, V21, V22, V23, V24, V25, V26), assignments: Self::Assignments) -> bool {
        &&& <(K0, K1, K2, K3, K4, K5, K6, K7, K8, K9, K10, K11, K12, K13, K14, K15) as InsertColumnValues<S, (V0, V1, V2, V3, V4, V5, V6, V7, V8, V9, V10, V11, V12, V13, V14, V15)>>::assigns((values.0, values.1, values.2, values.3, values.4, values.5, values.6, values.7, values.8, values.9, values.10, values.11, values.12, values.13, values.14, values.15), assignments.first)
        &&& <(K16, K17, K18, K19, K20, K21, K22, K23, K24, K25, K26) as InsertColumnValues<S, (V16, V17, V18, V19, V20, V21, V22, V23, V24, V25, V26)>>::assigns((values.16, values.17, values.18, values.19, values.20, values.21, values.22, values.23, values.24, values.25, values.26), assignments.second)
    }

    fn into_insert_assignments(values: (V0, V1, V2, V3, V4, V5, V6, V7, V8, V9, V10, V11, V12, V13, V14, V15, V16, V17, V18, V19, V20, V21, V22, V23, V24, V25, V26)) -> (assignments: Self::Assignments) {
        let first = <(K0, K1, K2, K3, K4, K5, K6, K7, K8, K9, K10, K11, K12, K13, K14, K15) as InsertColumnValues<S, (V0, V1, V2, V3, V4, V5, V6, V7, V8, V9, V10, V11, V12, V13, V14, V15)>>::into_insert_assignments((values.0, values.1, values.2, values.3, values.4, values.5, values.6, values.7, values.8, values.9, values.10, values.11, values.12, values.13, values.14, values.15));
        let second = <(K16, K17, K18, K19, K20, K21, K22, K23, K24, K25, K26) as InsertColumnValues<S, (V16, V17, V18, V19, V20, V21, V22, V23, V24, V25, V26)>>::into_insert_assignments((values.16, values.17, values.18, values.19, values.20, values.21, values.22, values.23, values.24, values.25, values.26));
        Joined { first, second }
    }
}

impl<
    S: InsertableTable,
    K0, K1, K2, K3, K4, K5, K6, K7, K8, K9, K10, K11, K12, K13, K14, K15, K16, K17, K18, K19, K20, K21, K22, K23, K24, K25, K26, K27,
    V0, V1, V2, V3, V4, V5, V6, V7, V8, V9, V10, V11, V12, V13, V14, V15, V16, V17, V18, V19, V20, V21, V22, V23, V24, V25, V26, V27,
> InsertColumnValues<S, (V0, V1, V2, V3, V4, V5, V6, V7, V8, V9, V10, V11, V12, V13, V14, V15, V16, V17, V18, V19, V20, V21, V22, V23, V24, V25, V26, V27)> for (K0, K1, K2, K3, K4, K5, K6, K7, K8, K9, K10, K11, K12, K13, K14, K15, K16, K17, K18, K19, K20, K21, K22, K23, K24, K25, K26, K27) where
    (K0, K1, K2, K3, K4, K5, K6, K7, K8, K9, K10, K11, K12, K13, K14, K15): InsertColumnValues<S, (V0, V1, V2, V3, V4, V5, V6, V7, V8, V9, V10, V11, V12, V13, V14, V15)>,
    (K16, K17, K18, K19, K20, K21, K22, K23, K24, K25, K26, K27): InsertColumnValues<S, (V16, V17, V18, V19, V20, V21, V22, V23, V24, V25, V26, V27)>,
    <<(K0, K1, K2, K3, K4, K5, K6, K7, K8, K9, K10, K11, K12, K13, K14, K15) as InsertColumnValues<S, (V0, V1, V2, V3, V4, V5, V6, V7, V8, V9, V10, V11, V12, V13, V14, V15)>>::Assignments as InsertAssignments>::Params: HAppend<
        <<(K16, K17, K18, K19, K20, K21, K22, K23, K24, K25, K26, K27) as InsertColumnValues<S, (V16, V17, V18, V19, V20, V21, V22, V23, V24, V25, V26, V27)>>::Assignments as InsertAssignments>::Params,
    >,
 {
    type Assignments = Joined<
        <(K0, K1, K2, K3, K4, K5, K6, K7, K8, K9, K10, K11, K12, K13, K14, K15) as InsertColumnValues<S, (V0, V1, V2, V3, V4, V5, V6, V7, V8, V9, V10, V11, V12, V13, V14, V15)>>::Assignments,
        <(K16, K17, K18, K19, K20, K21, K22, K23, K24, K25, K26, K27) as InsertColumnValues<S, (V16, V17, V18, V19, V20, V21, V22, V23, V24, V25, V26, V27)>>::Assignments,
    >;

    open spec fn column_names() -> Seq<&'static str> {
        <(K0, K1, K2, K3, K4, K5, K6, K7, K8, K9, K10, K11, K12, K13, K14, K15) as InsertColumnValues<S, (V0, V1, V2, V3, V4, V5, V6, V7, V8, V9, V10, V11, V12, V13, V14, V15)>>::column_names() + <(K16, K17, K18, K19, K20, K21, K22, K23, K24, K25, K26, K27) as InsertColumnValues<S, (V16, V17, V18, V19, V20, V21, V22, V23, V24, V25, V26, V27)>>::column_names()
    }

    open spec fn assigns(values: (V0, V1, V2, V3, V4, V5, V6, V7, V8, V9, V10, V11, V12, V13, V14, V15, V16, V17, V18, V19, V20, V21, V22, V23, V24, V25, V26, V27), assignments: Self::Assignments) -> bool {
        &&& <(K0, K1, K2, K3, K4, K5, K6, K7, K8, K9, K10, K11, K12, K13, K14, K15) as InsertColumnValues<S, (V0, V1, V2, V3, V4, V5, V6, V7, V8, V9, V10, V11, V12, V13, V14, V15)>>::assigns((values.0, values.1, values.2, values.3, values.4, values.5, values.6, values.7, values.8, values.9, values.10, values.11, values.12, values.13, values.14, values.15), assignments.first)
        &&& <(K16, K17, K18, K19, K20, K21, K22, K23, K24, K25, K26, K27) as InsertColumnValues<S, (V16, V17, V18, V19, V20, V21, V22, V23, V24, V25, V26, V27)>>::assigns((values.16, values.17, values.18, values.19, values.20, values.21, values.22, values.23, values.24, values.25, values.26, values.27), assignments.second)
    }

    fn into_insert_assignments(values: (V0, V1, V2, V3, V4, V5, V6, V7, V8, V9, V10, V11, V12, V13, V14, V15, V16, V17, V18, V19, V20, V21, V22, V23, V24, V25, V26, V27)) -> (assignments: Self::Assignments) {
        let first = <(K0, K1, K2, K3, K4, K5, K6, K7, K8, K9, K10, K11, K12, K13, K14, K15) as InsertColumnValues<S, (V0, V1, V2, V3, V4, V5, V6, V7, V8, V9, V10, V11, V12, V13, V14, V15)>>::into_insert_assignments((values.0, values.1, values.2, values.3, values.4, values.5, values.6, values.7, values.8, values.9, values.10, values.11, values.12, values.13, values.14, values.15));
        let second = <(K16, K17, K18, K19, K20, K21, K22, K23, K24, K25, K26, K27) as InsertColumnValues<S, (V16, V17, V18, V19, V20, V21, V22, V23, V24, V25, V26, V27)>>::into_insert_assignments((values.16, values.17, values.18, values.19, values.20, values.21, values.22, values.23, values.24, values.25, values.26, values.27));
        Joined { first, second }
    }
}

impl<
    S: InsertableTable,
    K0, K1, K2, K3, K4, K5, K6, K7, K8, K9, K10, K11, K12, K13, K14, K15, K16, K17, K18, K19, K20, K21, K22, K23, K24, K25, K26, K27, K28,
    V0, V1, V2, V3, V4, V5, V6, V7, V8, V9, V10, V11, V12, V13, V14, V15, V16, V17, V18, V19, V20, V21, V22, V23, V24, V25, V26, V27, V28,
> InsertColumnValues<S, (V0, V1, V2, V3, V4, V5, V6, V7, V8, V9, V10, V11, V12, V13, V14, V15, V16, V17, V18, V19, V20, V21, V22, V23, V24, V25, V26, V27, V28)> for (K0, K1, K2, K3, K4, K5, K6, K7, K8, K9, K10, K11, K12, K13, K14, K15, K16, K17, K18, K19, K20, K21, K22, K23, K24, K25, K26, K27, K28) where
    (K0, K1, K2, K3, K4, K5, K6, K7, K8, K9, K10, K11, K12, K13, K14, K15): InsertColumnValues<S, (V0, V1, V2, V3, V4, V5, V6, V7, V8, V9, V10, V11, V12, V13, V14, V15)>,
    (K16, K17, K18, K19, K20, K21, K22, K23, K24, K25, K26, K27, K28): InsertColumnValues<S, (V16, V17, V18, V19, V20, V21, V22, V23, V24, V25, V26, V27, V28)>,
    <<(K0, K1, K2, K3, K4, K5, K6, K7, K8, K9, K10, K11, K12, K13, K14, K15) as InsertColumnValues<S, (V0, V1, V2, V3, V4, V5, V6, V7, V8, V9, V10, V11, V12, V13, V14, V15)>>::Assignments as InsertAssignments>::Params: HAppend<
        <<(K16, K17, K18, K19, K20, K21, K22, K23, K24, K25, K26, K27, K28) as InsertColumnValues<S, (V16, V17, V18, V19, V20, V21, V22, V23, V24, V25, V26, V27, V28)>>::Assignments as InsertAssignments>::Params,
    >,
 {
    type Assignments = Joined<
        <(K0, K1, K2, K3, K4, K5, K6, K7, K8, K9, K10, K11, K12, K13, K14, K15) as InsertColumnValues<S, (V0, V1, V2, V3, V4, V5, V6, V7, V8, V9, V10, V11, V12, V13, V14, V15)>>::Assignments,
        <(K16, K17, K18, K19, K20, K21, K22, K23, K24, K25, K26, K27, K28) as InsertColumnValues<S, (V16, V17, V18, V19, V20, V21, V22, V23, V24, V25, V26, V27, V28)>>::Assignments,
    >;

    open spec fn column_names() -> Seq<&'static str> {
        <(K0, K1, K2, K3, K4, K5, K6, K7, K8, K9, K10, K11, K12, K13, K14, K15) as InsertColumnValues<S, (V0, V1, V2, V3, V4, V5, V6, V7, V8, V9, V10, V11, V12, V13, V14, V15)>>::column_names() + <(K16, K17, K18, K19, K20, K21, K22, K23, K24, K25, K26, K27, K28) as InsertColumnValues<S, (V16, V17, V18, V19, V20, V21, V22, V23, V24, V25, V26, V27, V28)>>::column_names()
    }

    open spec fn assigns(values: (V0, V1, V2, V3, V4, V5, V6, V7, V8, V9, V10, V11, V12, V13, V14, V15, V16, V17, V18, V19, V20, V21, V22, V23, V24, V25, V26, V27, V28), assignments: Self::Assignments) -> bool {
        &&& <(K0, K1, K2, K3, K4, K5, K6, K7, K8, K9, K10, K11, K12, K13, K14, K15) as InsertColumnValues<S, (V0, V1, V2, V3, V4, V5, V6, V7, V8, V9, V10, V11, V12, V13, V14, V15)>>::assigns((values.0, values.1, values.2, values.3, values.4, values.5, values.6, values.7, values.8, values.9, values.10, values.11, values.12, values.13, values.14, values.15), assignments.first)
        &&& <(K16, K17, K18, K19, K20, K21, K22, K23, K24, K25, K26, K27, K28) as InsertColumnValues<S, (V16, V17, V18, V19, V20, V21, V22, V23, V24, V25, V26, V27, V28)>>::assigns((values.16, values.17, values.18, values.19, values.20, values.21, values.22, values.23, values.24, values.25, values.26, values.27, values.28), assignments.second)
    }

    fn into_insert_assignments(values: (V0, V1, V2, V3, V4, V5, V6, V7, V8, V9, V10, V11, V12, V13, V14, V15, V16, V17, V18, V19, V20, V21, V22, V23, V24, V25, V26, V27, V28)) -> (assignments: Self::Assignments) {
        let first = <(K0, K1, K2, K3, K4, K5, K6, K7, K8, K9, K10, K11, K12, K13, K14, K15) as InsertColumnValues<S, (V0, V1, V2, V3, V4, V5, V6, V7, V8, V9, V10, V11, V12, V13, V14, V15)>>::into_insert_assignments((values.0, values.1, values.2, values.3, values.4, values.5, values.6, values.7, values.8, values.9, values.10, values.11, values.12, values.13, values.14, values.15));
        let second = <(K16, K17, K18, K19, K20, K21, K22, K23, K24, K25, K26, K27, K28) as InsertColumnValues<S, (V16, V17, V18, V19, V20, V21, V22, V23, V24, V25, V26, V27, V28)>>::into_insert_assignments((values.16, values.17, values.18, values.19, values.20, values.21, values.22, values.23, values.24, values.25, values.26, values.27, values.28));
        Joined { first, second }
    }
}

impl<
    S: InsertableTable,
    K0, K1, K2, K3, K4, K5, K6, K7, K8, K9, K10, K11, K12, K13, K14, K15, K16, K17, K18, K19, K20, K21, K22, K23, K24, K25, K26, K27, K28, K29,
    V0, V1, V2, V3, V4, V5, V6, V7, V8, V9, V10, V11, V12, V13, V14, V15, V16, V17, V18, V19, V20, V21, V22, V23, V24, V25, V26, V27, V28, V29,
> InsertColumnValues<S, (V0, V1, V2, V3, V4, V5, V6, V7, V8, V9, V10, V11, V12, V13, V14, V15, V16, V17, V18, V19, V20, V21, V22, V23, V24, V25, V26, V27, V28, V29)> for (K0, K1, K2, K3, K4, K5, K6, K7, K8, K9, K10, K11, K12, K13, K14, K15, K16, K17, K18, K19, K20, K21, K22, K23, K24, K25, K26, K27, K28, K29) where
    (K0, K1, K2, K3, K4, K5, K6, K7, K8, K9, K10, K11, K12, K13, K14, K15): InsertColumnValues<S, (V0, V1, V2, V3, V4, V5, V6, V7, V8, V9, V10, V11, V12, V13, V14, V15)>,
    (K16, K17, K18, K19, K20, K21, K22, K23, K24, K25, K26, K27, K28, K29): InsertColumnValues<S, (V16, V17, V18, V19, V20, V21, V22, V23, V24, V25, V26, V27, V28, V29)>,
    <<(K0, K1, K2, K3, K4, K5, K6, K7, K8, K9, K10, K11, K12, K13, K14, K15) as InsertColumnValues<S, (V0, V1, V2, V3, V4, V5, V6, V7, V8, V9, V10, V11, V12, V13, V14, V15)>>::Assignments as InsertAssignments>::Params: HAppend<
        <<(K16, K17, K18, K19, K20, K21, K22, K23, K24, K25, K26, K27, K28, K29) as InsertColumnValues<S, (V16, V17, V18, V19, V20, V21, V22, V23, V24, V25, V26, V27, V28, V29)>>::Assignments as InsertAssignments>::Params,
    >,
 {
    type Assignments = Joined<
        <(K0, K1, K2, K3, K4, K5, K6, K7, K8, K9, K10, K11, K12, K13, K14, K15) as InsertColumnValues<S, (V0, V1, V2, V3, V4, V5, V6, V7, V8, V9, V10, V11, V12, V13, V14, V15)>>::Assignments,
        <(K16, K17, K18, K19, K20, K21, K22, K23, K24, K25, K26, K27, K28, K29) as InsertColumnValues<S, (V16, V17, V18, V19, V20, V21, V22, V23, V24, V25, V26, V27, V28, V29)>>::Assignments,
    >;

    open spec fn column_names() -> Seq<&'static str> {
        <(K0, K1, K2, K3, K4, K5, K6, K7, K8, K9, K10, K11, K12, K13, K14, K15) as InsertColumnValues<S, (V0, V1, V2, V3, V4, V5, V6, V7, V8, V9, V10, V11, V12, V13, V14, V15)>>::column_names() + <(K16, K17, K18, K19, K20, K21, K22, K23, K24, K25, K26, K27, K28, K29) as InsertColumnValues<S, (V16, V17, V18, V19, V20, V21, V22, V23, V24, V25, V26, V27, V28, V29)>>::column_names()
    }

    open spec fn assigns(values: (V0, V1, V2, V3, V4, V5, V6, V7, V8, V9, V10, V11, V12, V13, V14, V15, V16, V17, V18, V19, V20, V21, V22, V23, V24, V25, V26, V27, V28, V29), assignments: Self::Assignments) -> bool {
        &&& <(K0, K1, K2, K3, K4, K5, K6, K7, K8, K9, K10, K11, K12, K13, K14, K15) as InsertColumnValues<S, (V0, V1, V2, V3, V4, V5, V6, V7, V8, V9, V10, V11, V12, V13, V14, V15)>>::assigns((values.0, values.1, values.2, values.3, values.4, values.5, values.6, values.7, values.8, values.9, values.10, values.11, values.12, values.13, values.14, values.15), assignments.first)
        &&& <(K16, K17, K18, K19, K20, K21, K22, K23, K24, K25, K26, K27, K28, K29) as InsertColumnValues<S, (V16, V17, V18, V19, V20, V21, V22, V23, V24, V25, V26, V27, V28, V29)>>::assigns((values.16, values.17, values.18, values.19, values.20, values.21, values.22, values.23, values.24, values.25, values.26, values.27, values.28, values.29), assignments.second)
    }

    fn into_insert_assignments(values: (V0, V1, V2, V3, V4, V5, V6, V7, V8, V9, V10, V11, V12, V13, V14, V15, V16, V17, V18, V19, V20, V21, V22, V23, V24, V25, V26, V27, V28, V29)) -> (assignments: Self::Assignments) {
        let first = <(K0, K1, K2, K3, K4, K5, K6, K7, K8, K9, K10, K11, K12, K13, K14, K15) as InsertColumnValues<S, (V0, V1, V2, V3, V4, V5, V6, V7, V8, V9, V10, V11, V12, V13, V14, V15)>>::into_insert_assignments((values.0, values.1, values.2, values.3, values.4, values.5, values.6, values.7, values.8, values.9, values.10, values.11, values.12, values.13, values.14, values.15));
        let second = <(K16, K17, K18, K19, K20, K21, K22, K23, K24, K25, K26, K27, K28, K29) as InsertColumnValues<S, (V16, V17, V18, V19, V20, V21, V22, V23, V24, V25, V26, V27, V28, V29)>>::into_insert_assignments((values.16, values.17, values.18, values.19, values.20, values.21, values.22, values.23, values.24, values.25, values.26, values.27, values.28, values.29));
        Joined { first, second }
    }
}

impl<
    S: InsertableTable,
    K0, K1, K2, K3, K4, K5, K6, K7, K8, K9, K10, K11, K12, K13, K14, K15, K16, K17, K18, K19, K20, K21, K22, K23, K24, K25, K26, K27, K28, K29, K30,
    V0, V1, V2, V3, V4, V5, V6, V7, V8, V9, V10, V11, V12, V13, V14, V15, V16, V17, V18, V19, V20, V21, V22, V23, V24, V25, V26, V27, V28, V29, V30,
> InsertColumnValues<S, (V0, V1, V2, V3, V4, V5, V6, V7, V8, V9, V10, V11, V12, V13, V14, V15, V16, V17, V18, V19, V20, V21, V22, V23, V24, V25, V26, V27, V28, V29, V30)> for (K0, K1, K2, K3, K4, K5, K6, K7, K8, K9, K10, K11, K12, K13, K14, K15, K16, K17, K18, K19, K20, K21, K22, K23, K24, K25, K26, K27, K28, K29, K30) where
    (K0, K1, K2, K3, K4, K5, K6, K7, K8, K9, K10, K11, K12, K13, K14, K15): InsertColumnValues<S, (V0, V1, V2, V3, V4, V5, V6, V7, V8, V9, V10, V11, V12, V13, V14, V15)>,
    (K16, K17, K18, K19, K20, K21, K22, K23, K24, K25, K26, K27, K28, K29, K30): InsertColumnValues<S, (V16, V17, V18, V19, V20, V21, V22, V23, V24, V25, V26, V27, V28, V29, V30)>,
    <<(K0, K1, K2, K3, K4, K5, K6, K7, K8, K9, K10, K11, K12, K13, K14, K15) as InsertColumnValues<S, (V0, V1, V2, V3, V4, V5, V6, V7, V8, V9, V10, V11, V12, V13, V14, V15)>>::Assignments as InsertAssignments>::Params: HAppend<
        <<(K16, K17, K18, K19, K20, K21, K22, K23, K24, K25, K26, K27, K28, K29, K30) as InsertColumnValues<S, (V16, V17, V18, V19, V20, V21, V22, V23, V24, V25, V26, V27, V28, V29, V30)>>::Assignments as InsertAssignments>::Params,
    >,
 {
    type Assignments = Joined<
        <(K0, K1, K2, K3, K4, K5, K6, K7, K8, K9, K10, K11, K12, K13, K14, K15) as InsertColumnValues<S, (V0, V1, V2, V3, V4, V5, V6, V7, V8, V9, V10, V11, V12, V13, V14, V15)>>::Assignments,
        <(K16, K17, K18, K19, K20, K21, K22, K23, K24, K25, K26, K27, K28, K29, K30) as InsertColumnValues<S, (V16, V17, V18, V19, V20, V21, V22, V23, V24, V25, V26, V27, V28, V29, V30)>>::Assignments,
    >;

    open spec fn column_names() -> Seq<&'static str> {
        <(K0, K1, K2, K3, K4, K5, K6, K7, K8, K9, K10, K11, K12, K13, K14, K15) as InsertColumnValues<S, (V0, V1, V2, V3, V4, V5, V6, V7, V8, V9, V10, V11, V12, V13, V14, V15)>>::column_names() + <(K16, K17, K18, K19, K20, K21, K22, K23, K24, K25, K26, K27, K28, K29, K30) as InsertColumnValues<S, (V16, V17, V18, V19, V20, V21, V22, V23, V24, V25, V26, V27, V28, V29, V30)>>::column_names()
    }

    open spec fn assigns(values: (V0, V1, V2, V3, V4, V5, V6, V7, V8, V9, V10, V11, V12, V13, V14, V15, V16, V17, V18, V19, V20, V21, V22, V23, V24, V25, V26, V27, V28, V29, V30), assignments: Self::Assignments) -> bool {
        &&& <(K0, K1, K2, K3, K4, K5, K6, K7, K8, K9, K10, K11, K12, K13, K14, K15) as InsertColumnValues<S, (V0, V1, V2, V3, V4, V5, V6, V7, V8, V9, V10, V11, V12, V13, V14, V15)>>::assigns((values.0, values.1, values.2, values.3, values.4, values.5, values.6, values.7, values.8, values.9, values.10, values.11, values.12, values.13, values.14, values.15), assignments.first)
        &&& <(K16, K17, K18, K19, K20, K21, K22, K23, K24, K25, K26, K27, K28, K29, K30) as InsertColumnValues<S, (V16, V17, V18, V19, V20, V21, V22, V23, V24, V25, V26, V27, V28, V29, V30)>>::assigns((values.16, values.17, values.18, values.19, values.20, values.21, values.22, values.23, values.24, values.25, values.26, values.27, values.28, values.29, values.30), assignments.second)
    }

    fn into_insert_assignments(values: (V0, V1, V2, V3, V4, V5, V6, V7, V8, V9, V10, V11, V12, V13, V14, V15, V16, V17, V18, V19, V20, V21, V22, V23, V24, V25, V26, V27, V28, V29, V30)) -> (assignments: Self::Assignments) {
        let first = <(K0, K1, K2, K3, K4, K5, K6, K7, K8, K9, K10, K11, K12, K13, K14, K15) as InsertColumnValues<S, (V0, V1, V2, V3, V4, V5, V6, V7, V8, V9, V10, V11, V12, V13, V14, V15)>>::into_insert_assignments((values.0, values.1, values.2, values.3, values.4, values.5, values.6, values.7, values.8, values.9, values.10, values.11, values.12, values.13, values.14, values.15));
        let second = <(K16, K17, K18, K19, K20, K21, K22, K23, K24, K25, K26, K27, K28, K29, K30) as InsertColumnValues<S, (V16, V17, V18, V19, V20, V21, V22, V23, V24, V25, V26, V27, V28, V29, V30)>>::into_insert_assignments((values.16, values.17, values.18, values.19, values.20, values.21, values.22, values.23, values.24, values.25, values.26, values.27, values.28, values.29, values.30));
        Joined { first, second }
    }
}

impl<
    S: InsertableTable,
    K0, K1, K2, K3, K4, K5, K6, K7, K8, K9, K10, K11, K12, K13, K14, K15, K16, K17, K18, K19, K20, K21, K22, K23, K24, K25, K26, K27, K28, K29, K30, K31,
    V0, V1, V2, V3, V4, V5, V6, V7, V8, V9, V10, V11, V12, V13, V14, V15, V16, V17, V18, V19, V20, V21, V22, V23, V24, V25, V26, V27, V28, V29, V30, V31,
> InsertColumnValues<S, (V0, V1, V2, V3, V4, V5, V6, V7, V8, V9, V10, V11, V12, V13, V14, V15, V16, V17, V18, V19, V20, V21, V22, V23, V24, V25, V26, V27, V28, V29, V30, V31)> for (K0, K1, K2, K3, K4, K5, K6, K7, K8, K9, K10, K11, K12, K13, K14, K15, K16, K17, K18, K19, K20, K21, K22, K23, K24, K25, K26, K27, K28, K29, K30, K31) where
    (K0, K1, K2, K3, K4, K5, K6, K7, K8, K9, K10, K11, K12, K13, K14, K15): InsertColumnValues<S, (V0, V1, V2, V3, V4, V5, V6, V7, V8, V9, V10, V11, V12, V13, V14, V15)>,
    (K16, K17, K18, K19, K20, K21, K22, K23, K24, K25, K26, K27, K28, K29, K30, K31): InsertColumnValues<S, (V16, V17, V18, V19, V20, V21, V22, V23, V24, V25, V26, V27, V28, V29, V30, V31)>,
    <<(K0, K1, K2, K3, K4, K5, K6, K7, K8, K9, K10, K11, K12, K13, K14, K15) as InsertColumnValues<S, (V0, V1, V2, V3, V4, V5, V6, V7, V8, V9, V10, V11, V12, V13, V14, V15)>>::Assignments as InsertAssignments>::Params: HAppend<
        <<(K16, K17, K18, K19, K20, K21, K22, K23, K24, K25, K26, K27, K28, K29, K30, K31) as InsertColumnValues<S, (V16, V17, V18, V19, V20, V21, V22, V23, V24, V25, V26, V27, V28, V29, V30, V31)>>::Assignments as InsertAssignments>::Params,
    >,
 {
    type Assignments = Joined<
        <(K0, K1, K2, K3, K4, K5, K6, K7, K8, K9, K10, K11, K12, K13, K14, K15) as InsertColumnValues<S, (V0, V1, V2, V3, V4, V5, V6, V7, V8, V9, V10, V11, V12, V13, V14, V15)>>::Assignments,
        <(K16, K17, K18, K19, K20, K21, K22, K23, K24, K25, K26, K27, K28, K29, K30, K31) as InsertColumnValues<S, (V16, V17, V18, V19, V20, V21, V22, V23, V24, V25, V26, V27, V28, V29, V30, V31)>>::Assignments,
    >;

    open spec fn column_names() -> Seq<&'static str> {
        <(K0, K1, K2, K3, K4, K5, K6, K7, K8, K9, K10, K11, K12, K13, K14, K15) as InsertColumnValues<S, (V0, V1, V2, V3, V4, V5, V6, V7, V8, V9, V10, V11, V12, V13, V14, V15)>>::column_names() + <(K16, K17, K18, K19, K20, K21, K22, K23, K24, K25, K26, K27, K28, K29, K30, K31) as InsertColumnValues<S, (V16, V17, V18, V19, V20, V21, V22, V23, V24, V25, V26, V27, V28, V29, V30, V31)>>::column_names()
    }

    open spec fn assigns(values: (V0, V1, V2, V3, V4, V5, V6, V7, V8, V9, V10, V11, V12, V13, V14, V15, V16, V17, V18, V19, V20, V21, V22, V23, V24, V25, V26, V27, V28, V29, V30, V31), assignments: Self::Assignments) -> bool {
        &&& <(K0, K1, K2, K3, K4, K5, K6, K7, K8, K9, K10, K11, K12, K13, K14, K15) as InsertColumnValues<S, (V0, V1, V2, V3, V4, V5, V6, V7, V8, V9, V10, V11, V12, V13, V14, V15)>>::assigns((values.0, values.1, values.2, values.3, values.4, values.5, values.6, values.7, values.8, values.9, values.10, values.11, values.12, values.13, values.14, values.15), assignments.first)
        &&& <(K16, K17, K18, K19, K20, K21, K22, K23, K24, K25, K26, K27, K28, K29, K30, K31) as InsertColumnValues<S, (V16, V17, V18, V19, V20, V21, V22, V23, V24, V25, V26, V27, V28, V29, V30, V31)>>::assigns((values.16, values.17, values.18, values.19, values.20, values.21, values.22, values.23, values.24, values.25, values.26, values.27, values.28, values.29, values.30, values.31), assignments.second)
    }

    fn into_insert_assignments(values: (V0, V1, V2, V3, V4, V5, V6, V7, V8, V9, V10, V11, V12, V13, V14, V15, V16, V17, V18, V19, V20, V21, V22, V23, V24, V25, V26, V27, V28, V29, V30, V31)) -> (assignments: Self::Assignments) {
        let first = <(K0, K1, K2, K3, K4, K5, K6, K7, K8, K9, K10, K11, K12, K13, K14, K15) as InsertColumnValues<S, (V0, V1, V2, V3, V4, V5, V6, V7, V8, V9, V10, V11, V12, V13, V14, V15)>>::into_insert_assignments((values.0, values.1, values.2, values.3, values.4, values.5, values.6, values.7, values.8, values.9, values.10, values.11, values.12, values.13, values.14, values.15));
        let second = <(K16, K17, K18, K19, K20, K21, K22, K23, K24, K25, K26, K27, K28, K29, K30, K31) as InsertColumnValues<S, (V16, V17, V18, V19, V20, V21, V22, V23, V24, V25, V26, V27, V28, V29, V30, V31)>>::into_insert_assignments((values.16, values.17, values.18, values.19, values.20, values.21, values.22, values.23, values.24, values.25, values.26, values.27, values.28, values.29, values.30, values.31));
        Joined { first, second }
    }
}

impl<
    S: UpdateableTable,
    K0, K1, K2, K3, K4, K5, K6, K7, K8,
    V0, V1, V2, V3, V4, V5, V6, V7, V8,
> UpdateColumnValues<S, (V0, V1, V2, V3, V4, V5, V6, V7, V8)> for (K0, K1, K2, K3, K4, K5, K6, K7, K8) where
    (K0, K1, K2, K3, K4, K5, K6, K7): UpdateColumnValues<S, (V0, V1, V2, V3, V4, V5, V6, V7)>,
    (K8,): UpdateColumnValues<S, (V8,)>,
    <<(K0, K1, K2, K3, K4, K5, K6, K7) as UpdateColumnValues<S, (V0, V1, V2, V3, V4, V5, V6, V7)>>::Assignments as UpdateAssignments>::Params: HAppend<
        <<(K8,) as UpdateColumnValues<S, (V8,)>>::Assignments as UpdateAssignments>::Params,
    >,
 {
    type Assignments = Joined<
        <(K0, K1, K2, K3, K4, K5, K6, K7) as UpdateColumnValues<S, (V0, V1, V2, V3, V4, V5, V6, V7)>>::Assignments,
        <(K8,) as UpdateColumnValues<S, (V8,)>>::Assignments,
    >;

    open spec fn column_names() -> Seq<&'static str> {
        <(K0, K1, K2, K3, K4, K5, K6, K7) as UpdateColumnValues<S, (V0, V1, V2, V3, V4, V5, V6, V7)>>::column_names() + <(K8,) as UpdateColumnValues<S, (V8,)>>::column_names()
    }

    open spec fn assigns(values: (V0, V1, V2, V3, V4, V5, V6, V7, V8), assignments: Self::Assignments) -> bool {
        &&& <(K0, K1, K2, K3, K4, K5, K6, K7) as UpdateColumnValues<S, (V0, V1, V2, V3, V4, V5, V6, V7)>>::assigns((values.0, values.1, values.2, values.3, values.4, values.5, values.6, values.7), assignments.first)
        &&& <(K8,) as UpdateColumnValues<S, (V8,)>>::assigns((values.8,), assignments.second)
    }

    fn into_update_assignments(values: (V0, V1, V2, V3, V4, V5, V6, V7, V8)) -> (assignments: Self::Assignments) {
        let first = <(K0, K1, K2, K3, K4, K5, K6, K7) as UpdateColumnValues<S, (V0, V1, V2, V3, V4, V5, V6, V7)>>::into_update_assignments((values.0, values.1, values.2, values.3, values.4, values.5, values.6, values.7));
        let second = <(K8,) as UpdateColumnValues<S, (V8,)>>::into_update_assignments((values.8,));
        Joined { first, second }
    }
}

impl<
    S: UpdateableTable,
    K0, K1, K2, K3, K4, K5, K6, K7, K8, K9,
    V0, V1, V2, V3, V4, V5, V6, V7, V8, V9,
> UpdateColumnValues<S, (V0, V1, V2, V3, V4, V5, V6, V7, V8, V9)> for (K0, K1, K2, K3, K4, K5, K6, K7, K8, K9) where
    (K0, K1, K2, K3, K4, K5, K6, K7): UpdateColumnValues<S, (V0, V1, V2, V3, V4, V5, V6, V7)>,
    (K8, K9): UpdateColumnValues<S, (V8, V9)>,
    <<(K0, K1, K2, K3, K4, K5, K6, K7) as UpdateColumnValues<S, (V0, V1, V2, V3, V4, V5, V6, V7)>>::Assignments as UpdateAssignments>::Params: HAppend<
        <<(K8, K9) as UpdateColumnValues<S, (V8, V9)>>::Assignments as UpdateAssignments>::Params,
    >,
 {
    type Assignments = Joined<
        <(K0, K1, K2, K3, K4, K5, K6, K7) as UpdateColumnValues<S, (V0, V1, V2, V3, V4, V5, V6, V7)>>::Assignments,
        <(K8, K9) as UpdateColumnValues<S, (V8, V9)>>::Assignments,
    >;

    open spec fn column_names() -> Seq<&'static str> {
        <(K0, K1, K2, K3, K4, K5, K6, K7) as UpdateColumnValues<S, (V0, V1, V2, V3, V4, V5, V6, V7)>>::column_names() + <(K8, K9) as UpdateColumnValues<S, (V8, V9)>>::column_names()
    }

    open spec fn assigns(values: (V0, V1, V2, V3, V4, V5, V6, V7, V8, V9), assignments: Self::Assignments) -> bool {
        &&& <(K0, K1, K2, K3, K4, K5, K6, K7) as UpdateColumnValues<S, (V0, V1, V2, V3, V4, V5, V6, V7)>>::assigns((values.0, values.1, values.2, values.3, values.4, values.5, values.6, values.7), assignments.first)
        &&& <(K8, K9) as UpdateColumnValues<S, (V8, V9)>>::assigns((values.8, values.9), assignments.second)
    }

    fn into_update_assignments(values: (V0, V1, V2, V3, V4, V5, V6, V7, V8, V9)) -> (assignments: Self::Assignments) {
        let first = <(K0, K1, K2, K3, K4, K5, K6, K7) as UpdateColumnValues<S, (V0, V1, V2, V3, V4, V5, V6, V7)>>::into_update_assignments((values.0, values.1, values.2, values.3, values.4, values.5, values.6, values.7));
        let second = <(K8, K9) as UpdateColumnValues<S, (V8, V9)>>::into_update_assignments((values.8, values.9));
        Joined { first, second }
    }
}

impl<
    S: UpdateableTable,
    K0, K1, K2, K3, K4, K5, K6, K7, K8, K9, K10,
    V0, V1, V2, V3, V4, V5, V6, V7, V8, V9, V10,
> UpdateColumnValues<S, (V0, V1, V2, V3, V4, V5, V6, V7, V8, V9, V10)> for (K0, K1, K2, K3, K4, K5, K6, K7, K8, K9, K10) where
    (K0, K1, K2, K3, K4, K5, K6, K7): UpdateColumnValues<S, (V0, V1, V2, V3, V4, V5, V6, V7)>,
    (K8, K9, K10): UpdateColumnValues<S, (V8, V9, V10)>,
    <<(K0, K1, K2, K3, K4, K5, K6, K7) as UpdateColumnValues<S, (V0, V1, V2, V3, V4, V5, V6, V7)>>::Assignments as UpdateAssignments>::Params: HAppend<
        <<(K8, K9, K10) as UpdateColumnValues<S, (V8, V9, V10)>>::Assignments as UpdateAssignments>::Params,
    >,
 {
    type Assignments = Joined<
        <(K0, K1, K2, K3, K4, K5, K6, K7) as UpdateColumnValues<S, (V0, V1, V2, V3, V4, V5, V6, V7)>>::Assignments,
        <(K8, K9, K10) as UpdateColumnValues<S, (V8, V9, V10)>>::Assignments,
    >;

    open spec fn column_names() -> Seq<&'static str> {
        <(K0, K1, K2, K3, K4, K5, K6, K7) as UpdateColumnValues<S, (V0, V1, V2, V3, V4, V5, V6, V7)>>::column_names() + <(K8, K9, K10) as UpdateColumnValues<S, (V8, V9, V10)>>::column_names()
    }

    open spec fn assigns(values: (V0, V1, V2, V3, V4, V5, V6, V7, V8, V9, V10), assignments: Self::Assignments) -> bool {
        &&& <(K0, K1, K2, K3, K4, K5, K6, K7) as UpdateColumnValues<S, (V0, V1, V2, V3, V4, V5, V6, V7)>>::assigns((values.0, values.1, values.2, values.3, values.4, values.5, values.6, values.7), assignments.first)
        &&& <(K8, K9, K10) as UpdateColumnValues<S, (V8, V9, V10)>>::assigns((values.8, values.9, values.10), assignments.second)
    }

    fn into_update_assignments(values: (V0, V1, V2, V3, V4, V5, V6, V7, V8, V9, V10)) -> (assignments: Self::Assignments) {
        let first = <(K0, K1, K2, K3, K4, K5, K6, K7) as UpdateColumnValues<S, (V0, V1, V2, V3, V4, V5, V6, V7)>>::into_update_assignments((values.0, values.1, values.2, values.3, values.4, values.5, values.6, values.7));
        let second = <(K8, K9, K10) as UpdateColumnValues<S, (V8, V9, V10)>>::into_update_assignments((values.8, values.9, values.10));
        Joined { first, second }
    }
}

impl<
    S: UpdateableTable,
    K0, K1, K2, K3, K4, K5, K6, K7, K8, K9, K10, K11,
    V0, V1, V2, V3, V4, V5, V6, V7, V8, V9, V10, V11,
> UpdateColumnValues<S, (V0, V1, V2, V3, V4, V5, V6, V7, V8, V9, V10, V11)> for (K0, K1, K2, K3, K4, K5, K6, K7, K8, K9, K10, K11) where
    (K0, K1, K2, K3, K4, K5, K6, K7): UpdateColumnValues<S, (V0, V1, V2, V3, V4, V5, V6, V7)>,
    (K8, K9, K10, K11): UpdateColumnValues<S, (V8, V9, V10, V11)>,
    <<(K0, K1, K2, K3, K4, K5, K6, K7) as UpdateColumnValues<S, (V0, V1, V2, V3, V4, V5, V6, V7)>>::Assignments as UpdateAssignments>::Params: HAppend<
        <<(K8, K9, K10, K11) as UpdateColumnValues<S, (V8, V9, V10, V11)>>::Assignments as UpdateAssignments>::Params,
    >,
 {
    type Assignments = Joined<
        <(K0, K1, K2, K3, K4, K5, K6, K7) as UpdateColumnValues<S, (V0, V1, V2, V3, V4, V5, V6, V7)>>::Assignments,
        <(K8, K9, K10, K11) as UpdateColumnValues<S, (V8, V9, V10, V11)>>::Assignments,
    >;

    open spec fn column_names() -> Seq<&'static str> {
        <(K0, K1, K2, K3, K4, K5, K6, K7) as UpdateColumnValues<S, (V0, V1, V2, V3, V4, V5, V6, V7)>>::column_names() + <(K8, K9, K10, K11) as UpdateColumnValues<S, (V8, V9, V10, V11)>>::column_names()
    }

    open spec fn assigns(values: (V0, V1, V2, V3, V4, V5, V6, V7, V8, V9, V10, V11), assignments: Self::Assignments) -> bool {
        &&& <(K0, K1, K2, K3, K4, K5, K6, K7) as UpdateColumnValues<S, (V0, V1, V2, V3, V4, V5, V6, V7)>>::assigns((values.0, values.1, values.2, values.3, values.4, values.5, values.6, values.7), assignments.first)
        &&& <(K8, K9, K10, K11) as UpdateColumnValues<S, (V8, V9, V10, V11)>>::assigns((values.8, values.9, values.10, values.11), assignments.second)
    }

    fn into_update_assignments(values: (V0, V1, V2, V3, V4, V5, V6, V7, V8, V9, V10, V11)) -> (assignments: Self::Assignments) {
        let first = <(K0, K1, K2, K3, K4, K5, K6, K7) as UpdateColumnValues<S, (V0, V1, V2, V3, V4, V5, V6, V7)>>::into_update_assignments((values.0, values.1, values.2, values.3, values.4, values.5, values.6, values.7));
        let second = <(K8, K9, K10, K11) as UpdateColumnValues<S, (V8, V9, V10, V11)>>::into_update_assignments((values.8, values.9, values.10, values.11));
        Joined { first, second }
    }
}

impl<
    S: UpdateableTable,
    K0, K1, K2, K3, K4, K5, K6, K7, K8, K9, K10, K11, K12,
    V0, V1, V2, V3, V4, V5, V6, V7, V8, V9, V10, V11, V12,
> UpdateColumnValues<S, (V0, V1, V2, V3, V4, V5, V6, V7, V8, V9, V10, V11, V12)> for (K0, K1, K2, K3, K4, K5, K6, K7, K8, K9, K10, K11, K12) where
    (K0, K1, K2, K3, K4, K5, K6, K7): UpdateColumnValues<S, (V0, V1, V2, V3, V4, V5, V6, V7)>,
    (K8, K9, K10, K11, K12): UpdateColumnValues<S, (V8, V9, V10, V11, V12)>,
    <<(K0, K1, K2, K3, K4, K5, K6, K7) as UpdateColumnValues<S, (V0, V1, V2, V3, V4, V5, V6, V7)>>::Assignments as UpdateAssignments>::Params: HAppend<
        <<(K8, K9, K10, K11, K12) as UpdateColumnValues<S, (V8, V9, V10, V11, V12)>>::Assignments as UpdateAssignments>::Params,
    >,
 {
    type Assignments = Joined<
        <(K0, K1, K2, K3, K4, K5, K6, K7) as UpdateColumnValues<S, (V0, V1, V2, V3, V4, V5, V6, V7)>>::Assignments,
        <(K8, K9, K10, K11, K12) as UpdateColumnValues<S, (V8, V9, V10, V11, V12)>>::Assignments,
    >;

    open spec fn column_names() -> Seq<&'static str> {
        <(K0, K1, K2, K3, K4, K5, K6, K7) as UpdateColumnValues<S, (V0, V1, V2, V3, V4, V5, V6, V7)>>::column_names() + <(K8, K9, K10, K11, K12) as UpdateColumnValues<S, (V8, V9, V10, V11, V12)>>::column_names()
    }

    open spec fn assigns(values: (V0, V1, V2, V3, V4, V5, V6, V7, V8, V9, V10, V11, V12), assignments: Self::Assignments) -> bool {
        &&& <(K0, K1, K2, K3, K4, K5, K6, K7) as UpdateColumnValues<S, (V0, V1, V2, V3, V4, V5, V6, V7)>>::assigns((values.0, values.1, values.2, values.3, values.4, values.5, values.6, values.7), assignments.first)
        &&& <(K8, K9, K10, K11, K12) as UpdateColumnValues<S, (V8, V9, V10, V11, V12)>>::assigns((values.8, values.9, values.10, values.11, values.12), assignments.second)
    }

    fn into_update_assignments(values: (V0, V1, V2, V3, V4, V5, V6, V7, V8, V9, V10, V11, V12)) -> (assignments: Self::Assignments) {
        let first = <(K0, K1, K2, K3, K4, K5, K6, K7) as UpdateColumnValues<S, (V0, V1, V2, V3, V4, V5, V6, V7)>>::into_update_assignments((values.0, values.1, values.2, values.3, values.4, values.5, values.6, values.7));
        let second = <(K8, K9, K10, K11, K12) as UpdateColumnValues<S, (V8, V9, V10, V11, V12)>>::into_update_assignments((values.8, values.9, values.10, values.11, values.12));
        Joined { first, second }
    }
}

impl<
    S: UpdateableTable,
    K0, K1, K2, K3, K4, K5, K6, K7, K8, K9, K10, K11, K12, K13,
    V0, V1, V2, V3, V4, V5, V6, V7, V8, V9, V10, V11, V12, V13,
> UpdateColumnValues<S, (V0, V1, V2, V3, V4, V5, V6, V7, V8, V9, V10, V11, V12, V13)> for (K0, K1, K2, K3, K4, K5, K6, K7, K8, K9, K10, K11, K12, K13) where
    (K0, K1, K2, K3, K4, K5, K6, K7): UpdateColumnValues<S, (V0, V1, V2, V3, V4, V5, V6, V7)>,
    (K8, K9, K10, K11, K12, K13): UpdateColumnValues<S, (V8, V9, V10, V11, V12, V13)>,
    <<(K0, K1, K2, K3, K4, K5, K6, K7) as UpdateColumnValues<S, (V0, V1, V2, V3, V4, V5, V6, V7)>>::Assignments as UpdateAssignments>::Params: HAppend<
        <<(K8, K9, K10, K11, K12, K13) as UpdateColumnValues<S, (V8, V9, V10, V11, V12, V13)>>::Assignments as UpdateAssignments>::Params,
    >,
 {
    type Assignments = Joined<
        <(K0, K1, K2, K3, K4, K5, K6, K7) as UpdateColumnValues<S, (V0, V1, V2, V3, V4, V5, V6, V7)>>::Assignments,
        <(K8, K9, K10, K11, K12, K13) as UpdateColumnValues<S, (V8, V9, V10, V11, V12, V13)>>::Assignments,
    >;

    open spec fn column_names() -> Seq<&'static str> {
        <(K0, K1, K2, K3, K4, K5, K6, K7) as UpdateColumnValues<S, (V0, V1, V2, V3, V4, V5, V6, V7)>>::column_names() + <(K8, K9, K10, K11, K12, K13) as UpdateColumnValues<S, (V8, V9, V10, V11, V12, V13)>>::column_names()
    }

    open spec fn assigns(values: (V0, V1, V2, V3, V4, V5, V6, V7, V8, V9, V10, V11, V12, V13), assignments: Self::Assignments) -> bool {
        &&& <(K0, K1, K2, K3, K4, K5, K6, K7) as UpdateColumnValues<S, (V0, V1, V2, V3, V4, V5, V6, V7)>>::assigns((values.0, values.1, values.2, values.3, values.4, values.5, values.6, values.7), assignments.first)
        &&& <(K8, K9, K10, K11, K12, K13) as UpdateColumnValues<S, (V8, V9, V10, V11, V12, V13)>>::assigns((values.8, values.9, values.10, values.11, values.12, values.13), assignments.second)
    }

    fn into_update_assignments(values: (V0, V1, V2, V3, V4, V5, V6, V7, V8, V9, V10, V11, V12, V13)) -> (assignments: Self::Assignments) {
        let first = <(K0, K1, K2, K3, K4, K5, K6, K7) as UpdateColumnValues<S, (V0, V1, V2, V3, V4, V5, V6, V7)>>::into_update_assignments((values.0, values.1, values.2, values.3, values.4, values.5, values.6, values.7));
        let second = <(K8, K9, K10, K11, K12, K13) as UpdateColumnValues<S, (V8, V9, V10, V11, V12, V13)>>::into_update_assignments((values.8, values.9, values.10, values.11, values.12, values.13));
        Joined { first, second }
    }
}

impl<
    S: UpdateableTable,
    K0, K1, K2, K3, K4, K5, K6, K7, K8, K9, K10, K11, K12, K13, K14,
    V0, V1, V2, V3, V4, V5, V6, V7, V8, V9, V10, V11, V12, V13, V14,
> UpdateColumnValues<S, (V0, V1, V2, V3, V4, V5, V6, V7, V8, V9, V10, V11, V12, V13, V14)> for (K0, K1, K2, K3, K4, K5, K6, K7, K8, K9, K10, K11, K12, K13, K14) where
    (K0, K1, K2, K3, K4, K5, K6, K7): UpdateColumnValues<S, (V0, V1, V2, V3, V4, V5, V6, V7)>,
    (K8, K9, K10, K11, K12, K13, K14): UpdateColumnValues<S, (V8, V9, V10, V11, V12, V13, V14)>,
    <<(K0, K1, K2, K3, K4, K5, K6, K7) as UpdateColumnValues<S, (V0, V1, V2, V3, V4, V5, V6, V7)>>::Assignments as UpdateAssignments>::Params: HAppend<
        <<(K8, K9, K10, K11, K12, K13, K14) as UpdateColumnValues<S, (V8, V9, V10, V11, V12, V13, V14)>>::Assignments as UpdateAssignments>::Params,
    >,
 {
    type Assignments = Joined<
        <(K0, K1, K2, K3, K4, K5, K6, K7) as UpdateColumnValues<S, (V0, V1, V2, V3, V4, V5, V6, V7)>>::Assignments,
        <(K8, K9, K10, K11, K12, K13, K14) as UpdateColumnValues<S, (V8, V9, V10, V11, V12, V13, V14)>>::Assignments,
    >;

    open spec fn column_names() -> Seq<&'static str> {
        <(K0, K1, K2, K3, K4, K5, K6, K7) as UpdateColumnValues<S, (V0, V1, V2, V3, V4, V5, V6, V7)>>::column_names() + <(K8, K9, K10, K11, K12, K13, K14) as UpdateColumnValues<S, (V8, V9, V10, V11, V12, V13, V14)>>::column_names()
    }

    open spec fn assigns(values: (V0, V1, V2, V3, V4, V5, V6, V7, V8, V9, V10, V11, V12, V13, V14), assignments: Self::Assignments) -> bool {
        &&& <(K0, K1, K2, K3, K4, K5, K6, K7) as UpdateColumnValues<S, (V0, V1, V2, V3, V4, V5, V6, V7)>>::assigns((values.0, values.1, values.2, values.3, values.4, values.5, values.6, values.7), assignments.first)
        &&& <(K8, K9, K10, K11, K12, K13, K14) as UpdateColumnValues<S, (V8, V9, V10, V11, V12, V13, V14)>>::assigns((values.8, values.9, values.10, values.11, values.12, values.13, values.14), assignments.second)
    }

    fn into_update_assignments(values: (V0, V1, V2, V3, V4, V5, V6, V7, V8, V9, V10, V11, V12, V13, V14)) -> (assignments: Self::Assignments) {
        let first = <(K0, K1, K2, K3, K4, K5, K6, K7) as UpdateColumnValues<S, (V0, V1, V2, V3, V4, V5, V6, V7)>>::into_update_assignments((values.0, values.1, values.2, values.3, values.4, values.5, values.6, values.7));
        let second = <(K8, K9, K10, K11, K12, K13, K14) as UpdateColumnValues<S, (V8, V9, V10, V11, V12, V13, V14)>>::into_update_assignments((values.8, values.9, values.10, values.11, values.12, values.13, values.14));
        Joined { first, second }
    }
}

impl<
    S: UpdateableTable,
    K0, K1, K2, K3, K4, K5, K6, K7, K8, K9, K10, K11, K12, K13, K14, K15,
    V0, V1, V2, V3, V4, V5, V6, V7, V8, V9, V10, V11, V12, V13, V14, V15,
> UpdateColumnValues<S, (V0, V1, V2, V3, V4, V5, V6, V7, V8, V9, V10, V11, V12, V13, V14, V15)> for (K0, K1, K2, K3, K4, K5, K6, K7, K8, K9, K10, K11, K12, K13, K14, K15) where
    (K0, K1, K2, K3, K4, K5, K6, K7): UpdateColumnValues<S, (V0, V1, V2, V3, V4, V5, V6, V7)>,
    (K8, K9, K10, K11, K12, K13, K14, K15): UpdateColumnValues<S, (V8, V9, V10, V11, V12, V13, V14, V15)>,
    <<(K0, K1, K2, K3, K4, K5, K6, K7) as UpdateColumnValues<S, (V0, V1, V2, V3, V4, V5, V6, V7)>>::Assignments as UpdateAssignments>::Params: HAppend<
        <<(K8, K9, K10, K11, K12, K13, K14, K15) as UpdateColumnValues<S, (V8, V9, V10, V11, V12, V13, V14, V15)>>::Assignments as UpdateAssignments>::Params,
    >,
 {
    type Assignments = Joined<
        <(K0, K1, K2, K3, K4, K5, K6, K7) as UpdateColumnValues<S, (V0, V1, V2, V3, V4, V5, V6, V7)>>::Assignments,
        <(K8, K9, K10, K11, K12, K13, K14, K15) as UpdateColumnValues<S, (V8, V9, V10, V11, V12, V13, V14, V15)>>::Assignments,
    >;

    open spec fn column_names() -> Seq<&'static str> {
        <(K0, K1, K2, K3, K4, K5, K6, K7) as UpdateColumnValues<S, (V0, V1, V2, V3, V4, V5, V6, V7)>>::column_names() + <(K8, K9, K10, K11, K12, K13, K14, K15) as UpdateColumnValues<S, (V8, V9, V10, V11, V12, V13, V14, V15)>>::column_names()
    }

    open spec fn assigns(values: (V0, V1, V2, V3, V4, V5, V6, V7, V8, V9, V10, V11, V12, V13, V14, V15), assignments: Self::Assignments) -> bool {
        &&& <(K0, K1, K2, K3, K4, K5, K6, K7) as UpdateColumnValues<S, (V0, V1, V2, V3, V4, V5, V6, V7)>>::assigns((values.0, values.1, values.2, values.3, values.4, values.5, values.6, values.7), assignments.first)
        &&& <(K8, K9, K10, K11, K12, K13, K14, K15) as UpdateColumnValues<S, (V8, V9, V10, V11, V12, V13, V14, V15)>>::assigns((values.8, values.9, values.10, values.11, values.12, values.13, values.14, values.15), assignments.second)
    }

    fn into_update_assignments(values: (V0, V1, V2, V3, V4, V5, V6, V7, V8, V9, V10, V11, V12, V13, V14, V15)) -> (assignments: Self::Assignments) {
        let first = <(K0, K1, K2, K3, K4, K5, K6, K7) as UpdateColumnValues<S, (V0, V1, V2, V3, V4, V5, V6, V7)>>::into_update_assignments((values.0, values.1, values.2, values.3, values.4, values.5, values.6, values.7));
        let second = <(K8, K9, K10, K11, K12, K13, K14, K15) as UpdateColumnValues<S, (V8, V9, V10, V11, V12, V13, V14, V15)>>::into_update_assignments((values.8, values.9, values.10, values.11, values.12, values.13, values.14, values.15));
        Joined { first, second }
    }
}

impl<
    S: UpdateableTable,
    K0, K1, K2, K3, K4, K5, K6, K7, K8, K9, K10, K11, K12, K13, K14, K15, K16,
    V0, V1, V2, V3, V4, V5, V6, V7, V8, V9, V10, V11, V12, V13, V14, V15, V16,
> UpdateColumnValues<S, (V0, V1, V2, V3, V4, V5, V6, V7, V8, V9, V10, V11, V12, V13, V14, V15, V16)> for (K0, K1, K2, K3, K4, K5, K6, K7, K8, K9, K10, K11, K12, K13, K14, K15, K16) where
    (K0, K1, K2, K3, K4, K5, K6, K7, K8, K9, K10, K11, K12, K13, K14, K15): UpdateColumnValues<S, (V0, V1, V2, V3, V4, V5, V6, V7, V8, V9, V10, V11, V12, V13, V14, V15)>,
    (K16,): UpdateColumnValues<S, (V16,)>,
    <<(K0, K1, K2, K3, K4, K5, K6, K7, K8, K9, K10, K11, K12, K13, K14, K15) as UpdateColumnValues<S, (V0, V1, V2, V3, V4, V5, V6, V7, V8, V9, V10, V11, V12, V13, V14, V15)>>::Assignments as UpdateAssignments>::Params: HAppend<
        <<(K16,) as UpdateColumnValues<S, (V16,)>>::Assignments as UpdateAssignments>::Params,
    >,
 {
    type Assignments = Joined<
        <(K0, K1, K2, K3, K4, K5, K6, K7, K8, K9, K10, K11, K12, K13, K14, K15) as UpdateColumnValues<S, (V0, V1, V2, V3, V4, V5, V6, V7, V8, V9, V10, V11, V12, V13, V14, V15)>>::Assignments,
        <(K16,) as UpdateColumnValues<S, (V16,)>>::Assignments,
    >;

    open spec fn column_names() -> Seq<&'static str> {
        <(K0, K1, K2, K3, K4, K5, K6, K7, K8, K9, K10, K11, K12, K13, K14, K15) as UpdateColumnValues<S, (V0, V1, V2, V3, V4, V5, V6, V7, V8, V9, V10, V11, V12, V13, V14, V15)>>::column_names() + <(K16,) as UpdateColumnValues<S, (V16,)>>::column_names()
    }

    open spec fn assigns(values: (V0, V1, V2, V3, V4, V5, V6, V7, V8, V9, V10, V11, V12, V13, V14, V15, V16), assignments: Self::Assignments) -> bool {
        &&& <(K0, K1, K2, K3, K4, K5, K6, K7, K8, K9, K10, K11, K12, K13, K14, K15) as UpdateColumnValues<S, (V0, V1, V2, V3, V4, V5, V6, V7, V8, V9, V10, V11, V12, V13, V14, V15)>>::assigns((values.0, values.1, values.2, values.3, values.4, values.5, values.6, values.7, values.8, values.9, values.10, values.11, values.12, values.13, values.14, values.15), assignments.first)
        &&& <(K16,) as UpdateColumnValues<S, (V16,)>>::assigns((values.16,), assignments.second)
    }

    fn into_update_assignments(values: (V0, V1, V2, V3, V4, V5, V6, V7, V8, V9, V10, V11, V12, V13, V14, V15, V16)) -> (assignments: Self::Assignments) {
        let first = <(K0, K1, K2, K3, K4, K5, K6, K7, K8, K9, K10, K11, K12, K13, K14, K15) as UpdateColumnValues<S, (V0, V1, V2, V3, V4, V5, V6, V7, V8, V9, V10, V11, V12, V13, V14, V15)>>::into_update_assignments((values.0, values.1, values.2, values.3, values.4, values.5, values.6, values.7, values.8, values.9, values.10, values.11, values.12, values.13, values.14, values.15));
        let second = <(K16,) as UpdateColumnValues<S, (V16,)>>::into_update_assignments((values.16,));
        Joined { first, second }
    }
}

impl<
    S: UpdateableTable,
    K0, K1, K2, K3, K4, K5, K6, K7, K8, K9, K10, K11, K12, K13, K14, K15, K16, K17,
    V0, V1, V2, V3, V4, V5, V6, V7, V8, V9, V10, V11, V12, V13, V14, V15, V16, V17,
> UpdateColumnValues<S, (V0, V1, V2, V3, V4, V5, V6, V7, V8, V9, V10, V11, V12, V13, V14, V15, V16, V17)> for (K0, K1, K2, K3, K4, K5, K6, K7, K8, K9, K10, K11, K12, K13, K14, K15, K16, K17) where
    (K0, K1, K2, K3, K4, K5, K6, K7, K8, K9, K10, K11, K12, K13, K14, K15): UpdateColumnValues<S, (V0, V1, V2, V3, V4, V5, V6, V7, V8, V9, V10, V11, V12, V13, V14, V15)>,
    (K16, K17): UpdateColumnValues<S, (V16, V17)>,
    <<(K0, K1, K2, K3, K4, K5, K6, K7, K8, K9, K10, K11, K12, K13, K14, K15) as UpdateColumnValues<S, (V0, V1, V2, V3, V4, V5, V6, V7, V8, V9, V10, V11, V12, V13, V14, V15)>>::Assignments as UpdateAssignments>::Params: HAppend<
        <<(K16, K17) as UpdateColumnValues<S, (V16, V17)>>::Assignments as UpdateAssignments>::Params,
    >,
 {
    type Assignments = Joined<
        <(K0, K1, K2, K3, K4, K5, K6, K7, K8, K9, K10, K11, K12, K13, K14, K15) as UpdateColumnValues<S, (V0, V1, V2, V3, V4, V5, V6, V7, V8, V9, V10, V11, V12, V13, V14, V15)>>::Assignments,
        <(K16, K17) as UpdateColumnValues<S, (V16, V17)>>::Assignments,
    >;

    open spec fn column_names() -> Seq<&'static str> {
        <(K0, K1, K2, K3, K4, K5, K6, K7, K8, K9, K10, K11, K12, K13, K14, K15) as UpdateColumnValues<S, (V0, V1, V2, V3, V4, V5, V6, V7, V8, V9, V10, V11, V12, V13, V14, V15)>>::column_names() + <(K16, K17) as UpdateColumnValues<S, (V16, V17)>>::column_names()
    }

    open spec fn assigns(values: (V0, V1, V2, V3, V4, V5, V6, V7, V8, V9, V10, V11, V12, V13, V14, V15, V16, V17), assignments: Self::Assignments) -> bool {
        &&& <(K0, K1, K2, K3, K4, K5, K6, K7, K8, K9, K10, K11, K12, K13, K14, K15) as UpdateColumnValues<S, (V0, V1, V2, V3, V4, V5, V6, V7, V8, V9, V10, V11, V12, V13, V14, V15)>>::assigns((values.0, values.1, values.2, values.3, values.4, values.5, values.6, values.7, values.8, values.9, values.10, values.11, values.12, values.13, values.14, values.15), assignments.first)
        &&& <(K16, K17) as UpdateColumnValues<S, (V16, V17)>>::assigns((values.16, values.17), assignments.second)
    }

    fn into_update_assignments(values: (V0, V1, V2, V3, V4, V5, V6, V7, V8, V9, V10, V11, V12, V13, V14, V15, V16, V17)) -> (assignments: Self::Assignments) {
        let first = <(K0, K1, K2, K3, K4, K5, K6, K7, K8, K9, K10, K11, K12, K13, K14, K15) as UpdateColumnValues<S, (V0, V1, V2, V3, V4, V5, V6, V7, V8, V9, V10, V11, V12, V13, V14, V15)>>::into_update_assignments((values.0, values.1, values.2, values.3, values.4, values.5, values.6, values.7, values.8, values.9, values.10, values.11, values.12, values.13, values.14, values.15));
        let second = <(K16, K17) as UpdateColumnValues<S, (V16, V17)>>::into_update_assignments((values.16, values.17));
        Joined { first, second }
    }
}

impl<
    S: UpdateableTable,
    K0, K1, K2, K3, K4, K5, K6, K7, K8, K9, K10, K11, K12, K13, K14, K15, K16, K17, K18,
    V0, V1, V2, V3, V4, V5, V6, V7, V8, V9, V10, V11, V12, V13, V14, V15, V16, V17, V18,
> UpdateColumnValues<S, (V0, V1, V2, V3, V4, V5, V6, V7, V8, V9, V10, V11, V12, V13, V14, V15, V16, V17, V18)> for (K0, K1, K2, K3, K4, K5, K6, K7, K8, K9, K10, K11, K12, K13, K14, K15, K16, K17, K18) where
    (K0, K1, K2, K3, K4, K5, K6, K7, K8, K9, K10, K11, K12, K13, K14, K15): UpdateColumnValues<S, (V0, V1, V2, V3, V4, V5, V6, V7, V8, V9, V10, V11, V12, V13, V14, V15)>,
    (K16, K17, K18): UpdateColumnValues<S, (V16, V17, V18)>,
    <<(K0, K1, K2, K3, K4, K5, K6, K7, K8, K9, K10, K11, K12, K13, K14, K15) as UpdateColumnValues<S, (V0, V1, V2, V3, V4, V5, V6, V7, V8, V9, V10, V11, V12, V13, V14, V15)>>::Assignments as UpdateAssignments>::Params: HAppend<
        <<(K16, K17, K18) as UpdateColumnValues<S, (V16, V17, V18)>>::Assignments as UpdateAssignments>::Params,
    >,
 {
    type Assignments = Joined<
        <(K0, K1, K2, K3, K4, K5, K6, K7, K8, K9, K10, K11, K12, K13, K14, K15) as UpdateColumnValues<S, (V0, V1, V2, V3, V4, V5, V6, V7, V8, V9, V10, V11, V12, V13, V14, V15)>>::Assignments,
        <(K16, K17, K18) as UpdateColumnValues<S, (V16, V17, V18)>>::Assignments,
    >;

    open spec fn column_names() -> Seq<&'static str> {
        <(K0, K1, K2, K3, K4, K5, K6, K7, K8, K9, K10, K11, K12, K13, K14, K15) as UpdateColumnValues<S, (V0, V1, V2, V3, V4, V5, V6, V7, V8, V9, V10, V11, V12, V13, V14, V15)>>::column_names() + <(K16, K17, K18) as UpdateColumnValues<S, (V16, V17, V18)>>::column_names()
    }

    open spec fn assigns(values: (V0, V1, V2, V3, V4, V5, V6, V7, V8, V9, V10, V11, V12, V13, V14, V15, V16, V17, V18), assignments: Self::Assignments) -> bool {
        &&& <(K0, K1, K2, K3, K4, K5, K6, K7, K8, K9, K10, K11, K12, K13, K14, K15) as UpdateColumnValues<S, (V0, V1, V2, V3, V4, V5, V6, V7, V8, V9, V10, V11, V12, V13, V14, V15)>>::assigns((values.0, values.1, values.2, values.3, values.4, values.5, values.6, values.7, values.8, values.9, values.10, values.11, values.12, values.13, values.14, values.15), assignments.first)
        &&& <(K16, K17, K18) as UpdateColumnValues<S, (V16, V17, V18)>>::assigns((values.16, values.17, values.18), assignments.second)
    }

    fn into_update_assignments(values: (V0, V1, V2, V3, V4, V5, V6, V7, V8, V9, V10, V11, V12, V13, V14, V15, V16, V17, V18)) -> (assignments: Self::Assignments) {
        let first = <(K0, K1, K2, K3, K4, K5, K6, K7, K8, K9, K10, K11, K12, K13, K14, K15) as UpdateColumnValues<S, (V0, V1, V2, V3, V4, V5, V6, V7, V8, V9, V10, V11, V12, V13, V14, V15)>>::into_update_assignments((values.0, values.1, values.2, values.3, values.4, values.5, values.6, values.7, values.8, values.9, values.10, values.11, values.12, values.13, values.14, values.15));
        let second = <(K16, K17, K18) as UpdateColumnValues<S, (V16, V17, V18)>>::into_update_assignments((values.16, values.17, values.18));
        Joined { first, second }
    }
}

impl<
    S: UpdateableTable,
    K0, K1, K2, K3, K4, K5, K6, K7, K8, K9, K10, K11, K12, K13, K14, K15, K16, K17, K18, K19,
    V0, V1, V2, V3, V4, V5, V6, V7, V8, V9, V10, V11, V12, V13, V14, V15, V16, V17, V18, V19,
> UpdateColumnValues<S, (V0, V1, V2, V3, V4, V5, V6, V7, V8, V9, V10, V11, V12, V13, V14, V15, V16, V17, V18, V19)> for (K0, K1, K2, K3, K4, K5, K6, K7, K8, K9, K10, K11, K12, K13, K14, K15, K16, K17, K18, K19) where
    (K0, K1, K2, K3, K4, K5, K6, K7, K8, K9, K10, K11, K12, K13, K14, K15): UpdateColumnValues<S, (V0, V1, V2, V3, V4, V5, V6, V7, V8, V9, V10, V11, V12, V13, V14, V15)>,
    (K16, K17, K18, K19): UpdateColumnValues<S, (V16, V17, V18, V19)>,
    <<(K0, K1, K2, K3, K4, K5, K6, K7, K8, K9, K10, K11, K12, K13, K14, K15) as UpdateColumnValues<S, (V0, V1, V2, V3, V4, V5, V6, V7, V8, V9, V10, V11, V12, V13, V14, V15)>>::Assignments as UpdateAssignments>::Params: HAppend<
        <<(K16, K17, K18, K19) as UpdateColumnValues<S, (V16, V17, V18, V19)>>::Assignments as UpdateAssignments>::Params,
    >,
 {
    type Assignments = Joined<
        <(K0, K1, K2, K3, K4, K5, K6, K7, K8, K9, K10, K11, K12, K13, K14, K15) as UpdateColumnValues<S, (V0, V1, V2, V3, V4, V5, V6, V7, V8, V9, V10, V11, V12, V13, V14, V15)>>::Assignments,
        <(K16, K17, K18, K19) as UpdateColumnValues<S, (V16, V17, V18, V19)>>::Assignments,
    >;

    open spec fn column_names() -> Seq<&'static str> {
        <(K0, K1, K2, K3, K4, K5, K6, K7, K8, K9, K10, K11, K12, K13, K14, K15) as UpdateColumnValues<S, (V0, V1, V2, V3, V4, V5, V6, V7, V8, V9, V10, V11, V12, V13, V14, V15)>>::column_names() + <(K16, K17, K18, K19) as UpdateColumnValues<S, (V16, V17, V18, V19)>>::column_names()
    }

    open spec fn assigns(values: (V0, V1, V2, V3, V4, V5, V6, V7, V8, V9, V10, V11, V12, V13, V14, V15, V16, V17, V18, V19), assignments: Self::Assignments) -> bool {
        &&& <(K0, K1, K2, K3, K4, K5, K6, K7, K8, K9, K10, K11, K12, K13, K14, K15) as UpdateColumnValues<S, (V0, V1, V2, V3, V4, V5, V6, V7, V8, V9, V10, V11, V12, V13, V14, V15)>>::assigns((values.0, values.1, values.2, values.3, values.4, values.5, values.6, values.7, values.8, values.9, values.10, values.11, values.12, values.13, values.14, values.15), assignments.first)
        &&& <(K16, K17, K18, K19) as UpdateColumnValues<S, (V16, V17, V18, V19)>>::assigns((values.16, values.17, values.18, values.19), assignments.second)
    }

    fn into_update_assignments(values: (V0, V1, V2, V3, V4, V5, V6, V7, V8, V9, V10, V11, V12, V13, V14, V15, V16, V17, V18, V19)) -> (assignments: Self::Assignments) {
        let first = <(K0, K1, K2, K3, K4, K5, K6, K7, K8, K9, K10, K11, K12, K13, K14, K15) as UpdateColumnValues<S, (V0, V1, V2, V3, V4, V5, V6, V7, V8, V9, V10, V11, V12, V13, V14, V15)>>::into_update_assignments((values.0, values.1, values.2, values.3, values.4, values.5, values.6, values.7, values.8, values.9, values.10, values.11, values.12, values.13, values.14, values.15));
        let second = <(K16, K17, K18, K19) as UpdateColumnValues<S, (V16, V17, V18, V19)>>::into_update_assignments((values.16, values.17, values.18, values.19));
        Joined { first, second }
    }
}

impl<
    S: UpdateableTable,
    K0, K1, K2, K3, K4, K5, K6, K7, K8, K9, K10, K11, K12, K13, K14, K15, K16, K17, K18, K19, K20,
    V0, V1, V2, V3, V4, V5, V6, V7, V8, V9, V10, V11, V12, V13, V14, V15, V16, V17, V18, V19, V20,
> UpdateColumnValues<S, (V0, V1, V2, V3, V4, V5, V6, V7, V8, V9, V10, V11, V12, V13, V14, V15, V16, V17, V18, V19, V20)> for (K0, K1, K2, K3, K4, K5, K6, K7, K8, K9, K10, K11, K12, K13, K14, K15, K16, K17, K18, K19, K20) where
    (K0, K1, K2, K3, K4, K5, K6, K7, K8, K9, K10, K11, K12, K13, K14, K15): UpdateColumnValues<S, (V0, V1, V2, V3, V4, V5, V6, V7, V8, V9, V10, V11, V12, V13, V14, V15)>,
    (K16, K17, K18, K19, K20): UpdateColumnValues<S, (V16, V17, V18, V19, V20)>,
    <<(K0, K1, K2, K3, K4, K5, K6, K7, K8, K9, K10, K11, K12, K13, K14, K15) as UpdateColumnValues<S, (V0, V1, V2, V3, V4, V5, V6, V7, V8, V9, V10, V11, V12, V13, V14, V15)>>::Assignments as UpdateAssignments>::Params: HAppend<
        <<(K16, K17, K18, K19, K20) as UpdateColumnValues<S, (V16, V17, V18, V19, V20)>>::Assignments as UpdateAssignments>::Params,
    >,
 {
    type Assignments = Joined<
        <(K0, K1, K2, K3, K4, K5, K6, K7, K8, K9, K10, K11, K12, K13, K14, K15) as UpdateColumnValues<S, (V0, V1, V2, V3, V4, V5, V6, V7, V8, V9, V10, V11, V12, V13, V14, V15)>>::Assignments,
        <(K16, K17, K18, K19, K20) as UpdateColumnValues<S, (V16, V17, V18, V19, V20)>>::Assignments,
    >;

    open spec fn column_names() -> Seq<&'static str> {
        <(K0, K1, K2, K3, K4, K5, K6, K7, K8, K9, K10, K11, K12, K13, K14, K15) as UpdateColumnValues<S, (V0, V1, V2, V3, V4, V5, V6, V7, V8, V9, V10, V11, V12, V13, V14, V15)>>::column_names() + <(K16, K17, K18, K19, K20) as UpdateColumnValues<S, (V16, V17, V18, V19, V20)>>::column_names()
    }

    open spec fn assigns(values: (V0, V1, V2, V3, V4, V5, V6, V7, V8, V9, V10, V11, V12, V13, V14, V15, V16, V17, V18, V19, V20), assignments: Self::Assignments) -> bool {
        &&& <(K0, K1, K2, K3, K4, K5, K6, K7, K8, K9, K10, K11, K12, K13, K14, K15) as UpdateColumnValues<S, (V0, V1, V2, V3, V4, V5, V6, V7, V8, V9, V10, V11, V12, V13, V14, V15)>>::assigns((values.0, values.1, values.2, values.3, values.4, values.5, values.6, values.7, values.8, values.9, values.10, values.11, values.12, values.13, values.14, values.15), assignments.first)
        &&& <(K16, K17, K18, K19, K20) as UpdateColumnValues<S, (V16, V17, V18, V19, V20)>>::assigns((values.16, values.17, values.18, values.19, values.20), assignments.second)
    }

    fn into_update_assignments(values: (V0, V1, V2, V3, V4, V5, V6, V7, V8, V9, V10, V11, V12, V13, V14, V15, V16, V17, V18, V19, V20)) -> (assignments: Self::Assignments) {
        let first = <(K0, K1, K2, K3, K4, K5, K6, K7, K8, K9, K10, K11, K12, K13, K14, K15) as UpdateColumnValues<S, (V0, V1, V2, V3, V4, V5, V6, V7, V8, V9, V10, V11, V12, V13, V14, V15)>>::into_update_assignments((values.0, values.1, values.2, values.3, values.4, values.5, values.6, values.7, values.8, values.9, values.10, values.11, values.12, values.13, values.14, values.15));
        let second = <(K16, K17, K18, K19, K20) as UpdateColumnValues<S, (V16, V17, V18, V19, V20)>>::into_update_assignments((values.16, values.17, values.18, values.19, values.20));
        Joined { first, second }
    }
}

impl<
    S: UpdateableTable,
    K0, K1, K2, K3, K4, K5, K6, K7, K8, K9, K10, K11, K12, K13, K14, K15, K16, K17, K18, K19, K20, K21,
    V0, V1, V2, V3, V4, V5, V6, V7, V8, V9, V10, V11, V12, V13, V14, V15, V16, V17, V18, V19, V20, V21,
> UpdateColumnValues<S, (V0, V1, V2, V3, V4, V5, V6, V7, V8, V9, V10, V11, V12, V13, V14, V15, V16, V17, V18, V19, V20, V21)> for (K0, K1, K2, K3, K4, K5, K6, K7, K8, K9, K10, K11, K12, K13, K14, K15, K16, K17, K18, K19, K20, K21) where
    (K0, K1, K2, K3, K4, K5, K6, K7, K8, K9, K10, K11, K12, K13, K14, K15): UpdateColumnValues<S, (V0, V1, V2, V3, V4, V5, V6, V7, V8, V9, V10, V11, V12, V13, V14, V15)>,
    (K16, K17, K18, K19, K20, K21): UpdateColumnValues<S, (V16, V17, V18, V19, V20, V21)>,
    <<(K0, K1, K2, K3, K4, K5, K6, K7, K8, K9, K10, K11, K12, K13, K14, K15) as UpdateColumnValues<S, (V0, V1, V2, V3, V4, V5, V6, V7, V8, V9, V10, V11, V12, V13, V14, V15)>>::Assignments as UpdateAssignments>::Params: HAppend<
        <<(K16, K17, K18, K19, K20, K21) as UpdateColumnValues<S, (V16, V17, V18, V19, V20, V21)>>::Assignments as UpdateAssignments>::Params,
    >,
 {
    type Assignments = Joined<
        <(K0, K1, K2, K3, K4, K5, K6, K7, K8, K9, K10, K11, K12, K13, K14, K15) as UpdateColumnValues<S, (V0, V1, V2, V3, V4, V5, V6, V7, V8, V9, V10, V11, V12, V13, V14, V15)>>::Assignments,
        <(K16, K17, K18, K19, K20, K21) as UpdateColumnValues<S, (V16, V17, V18, V19, V20, V21)>>::Assignments,
    >;

    open spec fn column_names() -> Seq<&'static str> {
        <(K0, K1, K2, K3, K4, K5, K6, K7, K8, K9, K10, K11, K12, K13, K14, K15) as UpdateColumnValues<S, (V0, V1, V2, V3, V4, V5, V6, V7, V8, V9, V10, V11, V12, V13, V14, V15)>>::column_names() + <(K16, K17, K18, K19, K20, K21) as UpdateColumnValues<S, (V16, V17, V18, V19, V20, V21)>>::column_names()
    }

    open spec fn assigns(values: (V0, V1, V2, V3, V4, V5, V6, V7, V8, V9, V10, V11, V12, V13, V14, V15, V16, V17, V18, V19, V20, V21), assignments: Self::Assignments) -> bool {
        &&& <(K0, K1, K2, K3, K4, K5, K6, K7, K8, K9, K10, K11, K12, K13, K14, K15) as UpdateColumnValues<S, (V0, V1, V2, V3, V4, V5, V6, V7, V8, V9, V10, V11, V12, V13, V14, V15)>>::assigns((values.0, values.1, values.2, values.3, values.4, values.5, values.6, values.7, values.8, values.9, values.10, values.11, values.12, values.13, values.14, values.15), assignments.first)
        &&& <(K16, K17, K18, K19, K20, K21) as UpdateColumnValues<S, (V16, V17, V18, V19, V20, V21)>>::assigns((values.16, values.17, values.18, values.19, values.20, values.21), assignments.second)
    }

    fn into_update_assignments(values: (V0, V1, V2, V3, V4, V5, V6, V7, V8, V9, V10, V11, V12, V13, V14, V15, V16, V17, V18, V19, V20, V21)) -> (assignments: Self::Assignments) {
        let first = <(K0, K1, K2, K3, K4, K5, K6, K7, K8, K9, K10, K11, K12, K13, K14, K15) as UpdateColumnValues<S, (V0, V1, V2, V3, V4, V5, V6, V7, V8, V9, V10, V11, V12, V13, V14, V15)>>::into_update_assignments((values.0, values.1, values.2, values.3, values.4, values.5, values.6, values.7, values.8, values.9, values.10, values.11, values.12, values.13, values.14, values.15));
        let second = <(K16, K17, K18, K19, K20, K21) as UpdateColumnValues<S, (V16, V17, V18, V19, V20, V21)>>::into_update_assignments((values.16, values.17, values.18, values.19, values.20, values.21));
        Joined { first, second }
    }
}

impl<
    S: UpdateableTable,
    K0, K1, K2, K3, K4, K5, K6, K7, K8, K9, K10, K11, K12, K13, K14, K15, K16, K17, K18, K19, K20, K21, K22,
    V0, V1, V2, V3, V4, V5, V6, V7, V8, V9, V10, V11, V12, V13, V14, V15, V16, V17, V18, V19, V20, V21, V22,
> UpdateColumnValues<S, (V0, V1, V2, V3, V4, V5, V6, V7, V8, V9, V10, V11, V12, V13, V14, V15, V16, V17, V18, V19, V20, V21, V22)> for (K0, K1, K2, K3, K4, K5, K6, K7, K8, K9, K10, K11, K12, K13, K14, K15, K16, K17, K18, K19, K20, K21, K22) where
    (K0, K1, K2, K3, K4, K5, K6, K7, K8, K9, K10, K11, K12, K13, K14, K15): UpdateColumnValues<S, (V0, V1, V2, V3, V4, V5, V6, V7, V8, V9, V10, V11, V12, V13, V14, V15)>,
    (K16, K17, K18, K19, K20, K21, K22): UpdateColumnValues<S, (V16, V17, V18, V19, V20, V21, V22)>,
    <<(K0, K1, K2, K3, K4, K5, K6, K7, K8, K9, K10, K11, K12, K13, K14, K15) as UpdateColumnValues<S, (V0, V1, V2, V3, V4, V5, V6, V7, V8, V9, V10, V11, V12, V13, V14, V15)>>::Assignments as UpdateAssignments>::Params: HAppend<
        <<(K16, K17, K18, K19, K20, K21, K22) as UpdateColumnValues<S, (V16, V17, V18, V19, V20, V21, V22)>>::Assignments as UpdateAssignments>::Params,
    >,
 {
    type Assignments = Joined<
        <(K0, K1, K2, K3, K4, K5, K6, K7, K8, K9, K10, K11, K12, K13, K14, K15) as UpdateColumnValues<S, (V0, V1, V2, V3, V4, V5, V6, V7, V8, V9, V10, V11, V12, V13, V14, V15)>>::Assignments,
        <(K16, K17, K18, K19, K20, K21, K22) as UpdateColumnValues<S, (V16, V17, V18, V19, V20, V21, V22)>>::Assignments,
    >;

    open spec fn column_names() -> Seq<&'static str> {
        <(K0, K1, K2, K3, K4, K5, K6, K7, K8, K9, K10, K11, K12, K13, K14, K15) as UpdateColumnValues<S, (V0, V1, V2, V3, V4, V5, V6, V7, V8, V9, V10, V11, V12, V13, V14, V15)>>::column_names() + <(K16, K17, K18, K19, K20, K21, K22) as UpdateColumnValues<S, (V16, V17, V18, V19, V20, V21, V22)>>::column_names()
    }

    open spec fn assigns(values: (V0, V1, V2, V3, V4, V5, V6, V7, V8, V9, V10, V11, V12, V13, V14, V15, V16, V17, V18, V19, V20, V21, V22), assignments: Self::Assignments) -> bool {
        &&& <(K0, K1, K2, K3, K4, K5, K6, K7, K8, K9, K10, K11, K12, K13, K14, K15) as UpdateColumnValues<S, (V0, V1, V2, V3, V4, V5, V6, V7, V8, V9, V10, V11, V12, V13, V14, V15)>>::assigns((values.0, values.1, values.2, values.3, values.4, values.5, values.6, values.7, values.8, values.9, values.10, values.11, values.12, values.13, values.14, values.15), assignments.first)
        &&& <(K16, K17, K18, K19, K20, K21, K22) as UpdateColumnValues<S, (V16, V17, V18, V19, V20, V21, V22)>>::assigns((values.16, values.17, values.18, values.19, values.20, values.21, values.22), assignments.second)
    }

    fn into_update_assignments(values: (V0, V1, V2, V3, V4, V5, V6, V7, V8, V9, V10, V11, V12, V13, V14, V15, V16, V17, V18, V19, V20, V21, V22)) -> (assignments: Self::Assignments) {
        let first = <(K0, K1, K2, K3, K4, K5, K6, K7, K8, K9, K10, K11, K12, K13, K14, K15) as UpdateColumnValues<S, (V0, V1, V2, V3, V4, V5, V6, V7, V8, V9, V10, V11, V12, V13, V14, V15)>>::into_update_assignments((values.0, values.1, values.2, values.3, values.4, values.5, values.6, values.7, values.8, values.9, values.10, values.11, values.12, values.13, values.14, values.15));
        let second = <(K16, K17, K18, K19, K20, K21, K22) as UpdateColumnValues<S, (V16, V17, V18, V19, V20, V21, V22)>>::into_update_assignments((values.16, values.17, values.18, values.19, values.20, values.21, values.22));
        Joined { first, second }
    }
}

impl<
    S: UpdateableTable,
    K0, K1, K2, K3, K4, K5, K6, K7, K8, K9, K10, K11, K12, K13, K14, K15, K16, K17, K18, K19, K20, K21, K22, K23,
    V0, V1, V2, V3, V4, V5, V6, V7, V8, V9, V10, V11, V12, V13, V14, V15, V16, V17, V18, V19, V20, V21, V22, V23,
> UpdateColumnValues<S, (V0, V1, V2, V3, V4, V5, V6, V7, V8, V9, V10, V11, V12, V13, V14, V15, V16, V17, V18, V19, V20, V21, V22, V23)> for (K0, K1, K2, K3, K4, K5, K6, K7, K8, K9, K10, K11, K12, K13, K14, K15, K16, K17, K18, K19, K20, K21, K22, K23) where
    (K0, K1, K2, K3, K4, K5, K6, K7, K8, K9, K10, K11, K12, K13, K14, K15): UpdateColumnValues<S, (V0, V1, V2, V3, V4, V5, V6, V7, V8, V9, V10, V11, V12, V13, V14, V15)>,
    (K16, K17, K18, K19, K20, K21, K22, K23): UpdateColumnValues<S, (V16, V17, V18, V19, V20, V21, V22, V23)>,
    <<(K0, K1, K2, K3, K4, K5, K6, K7, K8, K9, K10, K11, K12, K13, K14, K15) as UpdateColumnValues<S, (V0, V1, V2, V3, V4, V5, V6, V7, V8, V9, V10, V11, V12, V13, V14, V15)>>::Assignments as UpdateAssignments>::Params: HAppend<
        <<(K16, K17, K18, K19, K20, K21, K22, K23) as UpdateColumnValues<S, (V16, V17, V18, V19, V20, V21, V22, V23)>>::Assignments as UpdateAssignments>::Params,
    >,
 {
    type Assignments = Joined<
        <(K0, K1, K2, K3, K4, K5, K6, K7, K8, K9, K10, K11, K12, K13, K14, K15) as UpdateColumnValues<S, (V0, V1, V2, V3, V4, V5, V6, V7, V8, V9, V10, V11, V12, V13, V14, V15)>>::Assignments,
        <(K16, K17, K18, K19, K20, K21, K22, K23) as UpdateColumnValues<S, (V16, V17, V18, V19, V20, V21, V22, V23)>>::Assignments,
    >;

    open spec fn column_names() -> Seq<&'static str> {
        <(K0, K1, K2, K3, K4, K5, K6, K7, K8, K9, K10, K11, K12, K13, K14, K15) as UpdateColumnValues<S, (V0, V1, V2, V3, V4, V5, V6, V7, V8, V9, V10, V11, V12, V13, V14, V15)>>::column_names() + <(K16, K17, K18, K19, K20, K21, K22, K23) as UpdateColumnValues<S, (V16, V17, V18, V19, V20, V21, V22, V23)>>::column_names()
    }

    open spec fn assigns(values: (V0, V1, V2, V3, V4, V5, V6, V7, V8, V9, V10, V11, V12, V13, V14, V15, V16, V17, V18, V19, V20, V21, V22, V23), assignments: Self::Assignments) -> bool {
        &&& <(K0, K1, K2, K3, K4, K5, K6, K7, K8, K9, K10, K11, K12, K13, K14, K15) as UpdateColumnValues<S, (V0, V1, V2, V3, V4, V5, V6, V7, V8, V9, V10, V11, V12, V13, V14, V15)>>::assigns((values.0, values.1, values.2, values.3, values.4, values.5, values.6, values.7, values.8, values.9, values.10, values.11, values.12, values.13, values.14, values.15), assignments.first)
        &&& <(K16, K17, K18, K19, K20, K21, K22, K23) as UpdateColumnValues<S, (V16, V17, V18, V19, V20, V21, V22, V23)>>::assigns((values.16, values.17, values.18, values.19, values.20, values.21, values.22, values.23), assignments.second)
    }

    fn into_update_assignments(values: (V0, V1, V2, V3, V4, V5, V6, V7, V8, V9, V10, V11, V12, V13, V14, V15, V16, V17, V18, V19, V20, V21, V22, V23)) -> (assignments: Self::Assignments) {
        let first = <(K0, K1, K2, K3, K4, K5, K6, K7, K8, K9, K10, K11, K12, K13, K14, K15) as UpdateColumnValues<S, (V0, V1, V2, V3, V4, V5, V6, V7, V8, V9, V10, V11, V12, V13, V14, V15)>>::into_update_assignments((values.0, values.1, values.2, values.3, values.4, values.5, values.6, values.7, values.8, values.9, values.10, values.11, values.12, values.13, values.14, values.15));
        let second = <(K16, K17, K18, K19, K20, K21, K22, K23) as UpdateColumnValues<S, (V16, V17, V18, V19, V20, V21, V22, V23)>>::into_update_assignments((values.16, values.17, values.18, values.19, values.20, values.21, values.22, values.23));
        Joined { first, second }
    }
}

impl<
    S: UpdateableTable,
    K0, K1, K2, K3, K4, K5, K6, K7, K8, K9, K10, K11, K12, K13, K14, K15, K16, K17, K18, K19, K20, K21, K22, K23, K24,
    V0, V1, V2, V3, V4, V5, V6, V7, V8, V9, V10, V11, V12, V13, V14, V15, V16, V17, V18, V19, V20, V21, V22, V23, V24,
> UpdateColumnValues<S, (V0, V1, V2, V3, V4, V5, V6, V7, V8, V9, V10, V11, V12, V13, V14, V15, V16, V17, V18, V19, V20, V21, V22, V23, V24)> for (K0, K1, K2, K3, K4, K5, K6, K7, K8, K9, K10, K11, K12, K13, K14, K15, K16, K17, K18, K19, K20, K21, K22, K23, K24) where
    (K0, K1, K2, K3, K4, K5, K6, K7, K8, K9, K10, K11, K12, K13, K14, K15): UpdateColumnValues<S, (V0, V1, V2, V3, V4, V5, V6, V7, V8, V9, V10, V11, V12, V13, V14, V15)>,
    (K16, K17, K18, K19, K20, K21, K22, K23, K24): UpdateColumnValues<S, (V16, V17, V18, V19, V20, V21, V22, V23, V24)>,
    <<(K0, K1, K2, K3, K4, K5, K6, K7, K8, K9, K10, K11, K12, K13, K14, K15) as UpdateColumnValues<S, (V0, V1, V2, V3, V4, V5, V6, V7, V8, V9, V10, V11, V12, V13, V14, V15)>>::Assignments as UpdateAssignments>::Params: HAppend<
        <<(K16, K17, K18, K19, K20, K21, K22, K23, K24) as UpdateColumnValues<S, (V16, V17, V18, V19, V20, V21, V22, V23, V24)>>::Assignments as UpdateAssignments>::Params,
    >,
 {
    type Assignments = Joined<
        <(K0, K1, K2, K3, K4, K5, K6, K7, K8, K9, K10, K11, K12, K13, K14, K15) as UpdateColumnValues<S, (V0, V1, V2, V3, V4, V5, V6, V7, V8, V9, V10, V11, V12, V13, V14, V15)>>::Assignments,
        <(K16, K17, K18, K19, K20, K21, K22, K23, K24) as UpdateColumnValues<S, (V16, V17, V18, V19, V20, V21, V22, V23, V24)>>::Assignments,
    >;

    open spec fn column_names() -> Seq<&'static str> {
        <(K0, K1, K2, K3, K4, K5, K6, K7, K8, K9, K10, K11, K12, K13, K14, K15) as UpdateColumnValues<S, (V0, V1, V2, V3, V4, V5, V6, V7, V8, V9, V10, V11, V12, V13, V14, V15)>>::column_names() + <(K16, K17, K18, K19, K20, K21, K22, K23, K24) as UpdateColumnValues<S, (V16, V17, V18, V19, V20, V21, V22, V23, V24)>>::column_names()
    }

    open spec fn assigns(values: (V0, V1, V2, V3, V4, V5, V6, V7, V8, V9, V10, V11, V12, V13, V14, V15, V16, V17, V18, V19, V20, V21, V22, V23, V24), assignments: Self::Assignments) -> bool {
        &&& <(K0, K1, K2, K3, K4, K5, K6, K7, K8, K9, K10, K11, K12, K13, K14, K15) as UpdateColumnValues<S, (V0, V1, V2, V3, V4, V5, V6, V7, V8, V9, V10, V11, V12, V13, V14, V15)>>::assigns((values.0, values.1, values.2, values.3, values.4, values.5, values.6, values.7, values.8, values.9, values.10, values.11, values.12, values.13, values.14, values.15), assignments.first)
        &&& <(K16, K17, K18, K19, K20, K21, K22, K23, K24) as UpdateColumnValues<S, (V16, V17, V18, V19, V20, V21, V22, V23, V24)>>::assigns((values.16, values.17, values.18, values.19, values.20, values.21, values.22, values.23, values.24), assignments.second)
    }

    fn into_update_assignments(values: (V0, V1, V2, V3, V4, V5, V6, V7, V8, V9, V10, V11, V12, V13, V14, V15, V16, V17, V18, V19, V20, V21, V22, V23, V24)) -> (assignments: Self::Assignments) {
        let first = <(K0, K1, K2, K3, K4, K5, K6, K7, K8, K9, K10, K11, K12, K13, K14, K15) as UpdateColumnValues<S, (V0, V1, V2, V3, V4, V5, V6, V7, V8, V9, V10, V11, V12, V13, V14, V15)>>::into_update_assignments((values.0, values.1, values.2, values.3, values.4, values.5, values.6, values.7, values.8, values.9, values.10, values.11, values.12, values.13, values.14, values.15));
        let second = <(K16, K17, K18, K19, K20, K21, K22, K23, K24) as UpdateColumnValues<S, (V16, V17, V18, V19, V20, V21, V22, V23, V24)>>::into_update_assignments((values.16, values.17, values.18, values.19, values.20, values.21, values.22, values.23, values.24));
        Joined { first, second }
    }
}

impl<
    S: UpdateableTable,
    K0, K1, K2, K3, K4, K5, K6, K7, K8, K9, K10, K11, K12, K13, K14, K15, K16, K17, K18, K19, K20, K21, K22, K23, K24, K25,
    V0, V1, V2, V3, V4, V5, V6, V7, V8, V9, V10, V11, V12, V13, V14, V15, V16, V17, V18, V19, V20, V21, V22, V23, V24, V25,
> UpdateColumnValues<S, (V0, V1, V2, V3, V4, V5, V6, V7, V8, V9, V10, V11, V12, V13, V14, V15, V16, V17, V18, V19, V20, V21, V22, V23, V24, V25)> for (K0, K1, K2, K3, K4, K5, K6, K7, K8, K9, K10, K11, K12, K13, K14, K15, K16, K17, K18, K19, K20, K21, K22, K23, K24, K25) where
    (K0, K1, K2, K3, K4, K5, K6, K7, K8, K9, K10, K11, K12, K13, K14, K15): UpdateColumnValues<S, (V0, V1, V2, V3, V4, V5, V6, V7, V8, V9, V10, V11, V12, V13, V14, V15)>,
    (K16, K17, K18, K19, K20, K21, K22, K23, K24, K25): UpdateColumnValues<S, (V16, V17, V18, V19, V20, V21, V22, V23, V24, V25)>,
    <<(K0, K1, K2, K3, K4, K5, K6, K7, K8, K9, K10, K11, K12, K13, K14, K15) as UpdateColumnValues<S, (V0, V1, V2, V3, V4, V5, V6, V7, V8, V9, V10, V11, V12, V13, V14, V15)>>::Assignments as UpdateAssignments>::Params: HAppend<
        <<(K16, K17, K18, K19, K20, K21, K22, K23, K24, K25) as UpdateColumnValues<S, (V16, V17, V18, V19, V20, V21, V22, V23, V24, V25)>>::Assignments as UpdateAssignments>::Params,
    >,
 {
    type Assignments = Joined<
        <(K0, K1, K2, K3, K4, K5, K6, K7, K8, K9, K10, K11, K12, K13, K14, K15) as UpdateColumnValues<S, (V0, V1, V2, V3, V4, V5, V6, V7, V8, V9, V10, V11, V12, V13, V14, V15)>>::Assignments,
        <(K16, K17, K18, K19, K20, K21, K22, K23, K24, K25) as UpdateColumnValues<S, (V16, V17, V18, V19, V20, V21, V22, V23, V24, V25)>>::Assignments,
    >;

    open spec fn column_names() -> Seq<&'static str> {
        <(K0, K1, K2, K3, K4, K5, K6, K7, K8, K9, K10, K11, K12, K13, K14, K15) as UpdateColumnValues<S, (V0, V1, V2, V3, V4, V5, V6, V7, V8, V9, V10, V11, V12, V13, V14, V15)>>::column_names() + <(K16, K17, K18, K19, K20, K21, K22, K23, K24, K25) as UpdateColumnValues<S, (V16, V17, V18, V19, V20, V21, V22, V23, V24, V25)>>::column_names()
    }

    open spec fn assigns(values: (V0, V1, V2, V3, V4, V5, V6, V7, V8, V9, V10, V11, V12, V13, V14, V15, V16, V17, V18, V19, V20, V21, V22, V23, V24, V25), assignments: Self::Assignments) -> bool {
        &&& <(K0, K1, K2, K3, K4, K5, K6, K7, K8, K9, K10, K11, K12, K13, K14, K15) as UpdateColumnValues<S, (V0, V1, V2, V3, V4, V5, V6, V7, V8, V9, V10, V11, V12, V13, V14, V15)>>::assigns((values.0, values.1, values.2, values.3, values.4, values.5, values.6, values.7, values.8, values.9, values.10, values.11, values.12, values.13, values.14, values.15), assignments.first)
        &&& <(K16, K17, K18, K19, K20, K21, K22, K23, K24, K25) as UpdateColumnValues<S, (V16, V17, V18, V19, V20, V21, V22, V23, V24, V25)>>::assigns((values.16, values.17, values.18, values.19, values.20, values.21, values.22, values.23, values.24, values.25), assignments.second)
    }

    fn into_update_assignments(values: (V0, V1, V2, V3, V4, V5, V6, V7, V8, V9, V10, V11, V12, V13, V14, V15, V16, V17, V18, V19, V20, V21, V22, V23, V24, V25)) -> (assignments: Self::Assignments) {
        let first = <(K0, K1, K2, K3, K4, K5, K6, K7, K8, K9, K10, K11, K12, K13, K14, K15) as UpdateColumnValues<S, (V0, V1, V2, V3, V4, V5, V6, V7, V8, V9, V10, V11, V12, V13, V14, V15)>>::into_update_assignments((values.0, values.1, values.2, values.3, values.4, values.5, values.6, values.7, values.8, values.9, values.10, values.11, values.12, values.13, values.14, values.15));
        let second = <(K16, K17, K18, K19, K20, K21, K22, K23, K24, K25) as UpdateColumnValues<S, (V16, V17, V18, V19, V20, V21, V22, V23, V24, V25)>>::into_update_assignments((values.16, values.17, values.18, values.19, values.20, values.21, values.22, values.23, values.24, values.25));
        Joined { first, second }
    }
}

impl<
    S: UpdateableTable,
    K0, K1, K2, K3, K4, K5, K6, K7, K8, K9, K10, K11, K12, K13, K14, K15, K16, K17, K18, K19, K20, K21, K22, K23, K24, K25, K26,
    V0, V1, V2, V3, V4, V5, V6, V7, V8, V9, V10, V11, V12, V13, V14, V15, V16, V17, V18, V19, V20, V21, V22, V23, V24, V25, V26,
> UpdateColumnValues<S, (V0, V1, V2, V3, V4, V5, V6, V7, V8, V9, V10, V11, V12, V13, V14, V15, V16, V17, V18, V19, V20, V21, V22, V23, V24, V25, V26)> for (K0, K1, K2, K3, K4, K5, K6, K7, K8, K9, K10, K11, K12, K13, K14, K15, K16, K17, K18, K19, K20, K21, K22, K23, K24, K25, K26) where
    (K0, K1, K2, K3, K4, K5, K6, K7, K8, K9, K10, K11, K12, K13, K14, K15): UpdateColumnValues<S, (V0, V1, V2, V3, V4, V5, V6, V7, V8, V9, V10, V11, V12, V13, V14, V15)>,
    (K16, K17, K18, K19, K20, K21, K22, K23, K24, K25, K26): UpdateColumnValues<S, (V16, V17, V18, V19, V20, V21, V22, V23, V24, V25, V26)>,
    <<(K0, K1, K2, K3, K4, K5, K6, K7, K8, K9, K10, K11, K12, K13, K14, K15) as UpdateColumnValues<S, (V0, V1, V2, V3, V4, V5, V6, V7, V8, V9, V10, V11, V12, V13, V14, V15)>>::Assignments as UpdateAssignments>::Params: HAppend<
        <<(K16, K17, K18, K19, K20, K21, K22, K23, K24, K25, K26) as UpdateColumnValues<S, (V16, V17, V18, V19, V20, V21, V22, V23, V24, V25, V26)>>::Assignments as UpdateAssignments>::Params,
    >,
 {
    type Assignments = Joined<
        <(K0, K1, K2, K3, K4, K5, K6, K7, K8, K9, K10, K11, K12, K13, K14, K15) as UpdateColumnValues<S, (V0, V1, V2, V3, V4, V5, V6, V7, V8, V9, V10, V11, V12, V13, V14, V15)>>::Assignments,
        <(K16, K17, K18, K19, K20, K21, K22, K23, K24, K25, K26) as UpdateColumnValues<S, (V16, V17, V18, V19, V20, V21, V22, V23, V24, V25, V26)>>::Assignments,
    >;

    open spec fn column_names() -> Seq<&'static str> {
        <(K0, K1, K2, K3, K4, K5, K6, K7, K8, K9, K10, K11, K12, K13, K14, K15) as UpdateColumnValues<S, (V0, V1, V2, V3, V4, V5, V6, V7, V8, V9, V10, V11, V12, V13, V14, V15)>>::column_names() + <(K16, K17, K18, K19, K20, K21, K22, K23, K24, K25, K26) as UpdateColumnValues<S, (V16, V17, V18, V19, V20, V21, V22, V23, V24, V25, V26)>>::column_names()
    }

    open spec fn assigns(values: (V0, V1, V2, V3, V4, V5, V6, V7, V8, V9, V10, V11, V12, V13, V14, V15, V16, V17, V18, V19, V20, V21, V22, V23, V24, V25, V26), assignments: Self::Assignments) -> bool {
        &&& <(K0, K1, K2, K3, K4, K5, K6, K7, K8, K9, K10, K11, K12, K13, K14, K15) as UpdateColumnValues<S, (V0, V1, V2, V3, V4, V5, V6, V7, V8, V9, V10, V11, V12, V13, V14, V15)>>::assigns((values.0, values.1, values.2, values.3, values.4, values.5, values.6, values.7, values.8, values.9, values.10, values.11, values.12, values.13, values.14, values.15), assignments.first)
        &&& <(K16, K17, K18, K19, K20, K21, K22, K23, K24, K25, K26) as UpdateColumnValues<S, (V16, V17, V18, V19, V20, V21, V22, V23, V24, V25, V26)>>::assigns((values.16, values.17, values.18, values.19, values.20, values.21, values.22, values.23, values.24, values.25, values.26), assignments.second)
    }

    fn into_update_assignments(values: (V0, V1, V2, V3, V4, V5, V6, V7, V8, V9, V10, V11, V12, V13, V14, V15, V16, V17, V18, V19, V20, V21, V22, V23, V24, V25, V26)) -> (assignments: Self::Assignments) {
        let first = <(K0, K1, K2, K3, K4, K5, K6, K7, K8, K9, K10, K11, K12, K13, K14, K15) as UpdateColumnValues<S, (V0, V1, V2, V3, V4, V5, V6, V7, V8, V9, V10, V11, V12, V13, V14, V15)>>::into_update_assignments((values.0, values.1, values.2, values.3, values.4, values.5, values.6, values.7, values.8, values.9, values.10, values.11, values.12, values.13, values.14, values.15));
        let second = <(K16, K17, K18, K19, K20, K21, K22, K23, K24, K25, K26) as UpdateColumnValues<S, (V16, V17, V18, V19, V20, V21, V22, V23, V24, V25, V26)>>::into_update_assignments((values.16, values.17, values.18, values.19, values.20, values.21, values.22, values.23, values.24, values.25, values.26));
        Joined { first, second }
    }
}

impl<
    S: UpdateableTable,
    K0, K1, K2, K3, K4, K5, K6, K7, K8, K9, K10, K11, K12, K13, K14, K15, K16, K17, K18, K19, K20, K21, K22, K23, K24, K25, K26, K27,
    V0, V1, V2, V3, V4, V5, V6, V7, V8, V9, V10, V11, V12, V13, V14, V15, V16, V17, V18, V19, V20, V21, V22, V23, V24, V25, V26, V27,
> UpdateColumnValues<S, (V0, V1, V2, V3, V4, V5, V6, V7, V8, V9, V10, V11, V12, V13, V14, V15, V16, V17, V18, V19, V20, V21, V22, V23, V24, V25, V26, V27)> for (K0, K1, K2, K3, K4, K5, K6, K7, K8, K9, K10, K11, K12, K13, K14, K15, K16, K17, K18, K19, K20, K21, K22, K23, K24, K25, K26, K27) where
    (K0, K1, K2, K3, K4, K5, K6, K7, K8, K9, K10, K11, K12, K13, K14, K15): UpdateColumnValues<S, (V0, V1, V2, V3, V4, V5, V6, V7, V8, V9, V10, V11, V12, V13, V14, V15)>,
    (K16, K17, K18, K19, K20, K21, K22, K23, K24, K25, K26, K27): UpdateColumnValues<S, (V16, V17, V18, V19, V20, V21, V22, V23, V24, V25, V26, V27)>,
    <<(K0, K1, K2, K3, K4, K5, K6, K7, K8, K9, K10, K11, K12, K13, K14, K15) as UpdateColumnValues<S, (V0, V1, V2, V3, V4, V5, V6, V7, V8, V9, V10, V11, V12, V13, V14, V15)>>::Assignments as UpdateAssignments>::Params: HAppend<
        <<(K16, K17, K18, K19, K20, K21, K22, K23, K24, K25, K26, K27) as UpdateColumnValues<S, (V16, V17, V18, V19, V20, V21, V22, V23, V24, V25, V26, V27)>>::Assignments as UpdateAssignments>::Params,
    >,
 {
    type Assignments = Joined<
        <(K0, K1, K2, K3, K4, K5, K6, K7, K8, K9, K10, K11, K12, K13, K14, K15) as UpdateColumnValues<S, (V0, V1, V2, V3, V4, V5, V6, V7, V8, V9, V10, V11, V12, V13, V14, V15)>>::Assignments,
        <(K16, K17, K18, K19, K20, K21, K22, K23, K24, K25, K26, K27) as UpdateColumnValues<S, (V16, V17, V18, V19, V20, V21, V22, V23, V24, V25, V26, V27)>>::Assignments,
    >;

    open spec fn column_names() -> Seq<&'static str> {
        <(K0, K1, K2, K3, K4, K5, K6, K7, K8, K9, K10, K11, K12, K13, K14, K15) as UpdateColumnValues<S, (V0, V1, V2, V3, V4, V5, V6, V7, V8, V9, V10, V11, V12, V13, V14, V15)>>::column_names() + <(K16, K17, K18, K19, K20, K21, K22, K23, K24, K25, K26, K27) as UpdateColumnValues<S, (V16, V17, V18, V19, V20, V21, V22, V23, V24, V25, V26, V27)>>::column_names()
    }

    open spec fn assigns(values: (V0, V1, V2, V3, V4, V5, V6, V7, V8, V9, V10, V11, V12, V13, V14, V15, V16, V17, V18, V19, V20, V21, V22, V23, V24, V25, V26, V27), assignments: Self::Assignments) -> bool {
        &&& <(K0, K1, K2, K3, K4, K5, K6, K7, K8, K9, K10, K11, K12, K13, K14, K15) as UpdateColumnValues<S, (V0, V1, V2, V3, V4, V5, V6, V7, V8, V9, V10, V11, V12, V13, V14, V15)>>::assigns((values.0, values.1, values.2, values.3, values.4, values.5, values.6, values.7, values.8, values.9, values.10, values.11, values.12, values.13, values.14, values.15), assignments.first)
        &&& <(K16, K17, K18, K19, K20, K21, K22, K23, K24, K25, K26, K27) as UpdateColumnValues<S, (V16, V17, V18, V19, V20, V21, V22, V23, V24, V25, V26, V27)>>::assigns((values.16, values.17, values.18, values.19, values.20, values.21, values.22, values.23, values.24, values.25, values.26, values.27), assignments.second)
    }

    fn into_update_assignments(values: (V0, V1, V2, V3, V4, V5, V6, V7, V8, V9, V10, V11, V12, V13, V14, V15, V16, V17, V18, V19, V20, V21, V22, V23, V24, V25, V26, V27)) -> (assignments: Self::Assignments) {
        let first = <(K0, K1, K2, K3, K4, K5, K6, K7, K8, K9, K10, K11, K12, K13, K14, K15) as UpdateColumnValues<S, (V0, V1, V2, V3, V4, V5, V6, V7, V8, V9, V10, V11, V12, V13, V14, V15)>>::into_update_assignments((values.0, values.1, values.2, values.3, values.4, values.5, values.6, values.7, values.8, values.9, values.10, values.11, values.12, values.13, values.14, values.15));
        let second = <(K16, K17, K18, K19, K20, K21, K22, K23, K24, K25, K26, K27) as UpdateColumnValues<S, (V16, V17, V18, V19, V20, V21, V22, V23, V24, V25, V26, V27)>>::into_update_assignments((values.16, values.17, values.18, values.19, values.20, values.21, values.22, values.23, values.24, values.25, values.26, values.27));
        Joined { first, second }
    }
}

impl<
    S: UpdateableTable,
    K0, K1, K2, K3, K4, K5, K6, K7, K8, K9, K10, K11, K12, K13, K14, K15, K16, K17, K18, K19, K20, K21, K22, K23, K24, K25, K26, K27, K28,
    V0, V1, V2, V3, V4, V5, V6, V7, V8, V9, V10, V11, V12, V13, V14, V15, V16, V17, V18, V19, V20, V21, V22, V23, V24, V25, V26, V27, V28,
> UpdateColumnValues<S, (V0, V1, V2, V3, V4, V5, V6, V7, V8, V9, V10, V11, V12, V13, V14, V15, V16, V17, V18, V19, V20, V21, V22, V23, V24, V25, V26, V27, V28)> for (K0, K1, K2, K3, K4, K5, K6, K7, K8, K9, K10, K11, K12, K13, K14, K15, K16, K17, K18, K19, K20, K21, K22, K23, K24, K25, K26, K27, K28) where
    (K0, K1, K2, K3, K4, K5, K6, K7, K8, K9, K10, K11, K12, K13, K14, K15): UpdateColumnValues<S, (V0, V1, V2, V3, V4, V5, V6, V7, V8, V9, V10, V11, V12, V13, V14, V15)>,
    (K16, K17, K18, K19, K20, K21, K22, K23, K24, K25, K26, K27, K28): UpdateColumnValues<S, (V16, V17, V18, V19, V20, V21, V22, V23, V24, V25, V26, V27, V28)>,
    <<(K0, K1, K2, K3, K4, K5, K6, K7, K8, K9, K10, K11, K12, K13, K14, K15) as UpdateColumnValues<S, (V0, V1, V2, V3, V4, V5, V6, V7, V8, V9, V10, V11, V12, V13, V14, V15)>>::Assignments as UpdateAssignments>::Params: HAppend<
        <<(K16, K17, K18, K19, K20, K21, K22, K23, K24, K25, K26, K27, K28) as UpdateColumnValues<S, (V16, V17, V18, V19, V20, V21, V22, V23, V24, V25, V26, V27, V28)>>::Assignments as UpdateAssignments>::Params,
    >,
 {
    type Assignments = Joined<
        <(K0, K1, K2, K3, K4, K5, K6, K7, K8, K9, K10, K11, K12, K13, K14, K15) as UpdateColumnValues<S, (V0, V1, V2, V3, V4, V5, V6, V7, V8, V9, V10, V11, V12, V13, V14, V15)>>::Assignments,
        <(K16, K17, K18, K19, K20, K21, K22, K23, K24, K25, K26, K27, K28) as UpdateColumnValues<S, (V16, V17, V18, V19, V20, V21, V22, V23, V24, V25, V26, V27, V28)>>::Assignments,
    >;

    open spec fn column_names() -> Seq<&'static str> {
        <(K0, K1, K2, K3, K4, K5, K6, K7, K8, K9, K10, K11, K12, K13, K14, K15) as UpdateColumnValues<S, (V0, V1, V2, V3, V4, V5, V6, V7, V8, V9, V10, V11, V12, V13, V14, V15)>>::column_names() + <(K16, K17, K18, K19, K20, K21, K22, K23, K24, K25, K26, K27, K28) as UpdateColumnValues<S, (V16, V17, V18, V19, V20, V21, V22, V23, V24, V25, V26, V27, V28)>>::column_names()
    }

    open spec fn assigns(values: (V0, V1, V2, V3, V4, V5, V6, V7, V8, V9, V10, V11, V12, V13, V14, V15, V16, V17, V18, V19, V20, V21, V22, V23, V24, V25, V26, V27, V28), assignments: Self::Assignments) -> bool {
        &&& <(K0, K1, K2, K3, K4, K5, K6, K7, K8, K9, K10, K11, K12, K13, K14, K15) as UpdateColumnValues<S, (V0, V1, V2, V3, V4, V5, V6, V7, V8, V9, V10, V11, V12, V13, V14, V15)>>::assigns((values.0, values.1, values.2, values.3, values.4, values.5, values.6, values.7, values.8, values.9, values.10, values.11, values.12, values.13, values.14, values.15), assignments.first)
        &&& <(K16, K17, K18, K19, K20, K21, K22, K23, K24, K25, K26, K27, K28) as UpdateColumnValues<S, (V16, V17, V18, V19, V20, V21, V22, V23, V24, V25, V26, V27, V28)>>::assigns((values.16, values.17, values.18, values.19, values.20, values.21, values.22, values.23, values.24, values.25, values.26, values.27, values.28), assignments.second)
    }

    fn into_update_assignments(values: (V0, V1, V2, V3, V4, V5, V6, V7, V8, V9, V10, V11, V12, V13, V14, V15, V16, V17, V18, V19, V20, V21, V22, V23, V24, V25, V26, V27, V28)) -> (assignments: Self::Assignments) {
        let first = <(K0, K1, K2, K3, K4, K5, K6, K7, K8, K9, K10, K11, K12, K13, K14, K15) as UpdateColumnValues<S, (V0, V1, V2, V3, V4, V5, V6, V7, V8, V9, V10, V11, V12, V13, V14, V15)>>::into_update_assignments((values.0, values.1, values.2, values.3, values.4, values.5, values.6, values.7, values.8, values.9, values.10, values.11, values.12, values.13, values.14, values.15));
        let second = <(K16, K17, K18, K19, K20, K21, K22, K23, K24, K25, K26, K27, K28) as UpdateColumnValues<S, (V16, V17, V18, V19, V20, V21, V22, V23, V24, V25, V26, V27, V28)>>::into_update_assignments((values.16, values.17, values.18, values.19, values.20, values.21, values.22, values.23, values.24, values.25, values.26, values.27, values.28));
        Joined { first, second }
    }
}

impl<
    S: UpdateableTable,
    K0, K1, K2, K3, K4, K5, K6, K7, K8, K9, K10, K11, K12, K13, K14, K15, K16, K17, K18, K19, K20, K21, K22, K23, K24, K25, K26, K27, K28, K29,
    V0, V1, V2, V3, V4, V5, V6, V7, V8, V9, V10, V11, V12, V13, V14, V15, V16, V17, V18, V19, V20, V21, V22, V23, V24, V25, V26, V27, V28, V29,
> UpdateColumnValues<S, (V0, V1, V2, V3, V4, V5, V6, V7, V8, V9, V10, V11, V12, V13, V14, V15, V16, V17, V18, V19, V20, V21, V22, V23, V24, V25, V26, V27, V28, V29)> for (K0, K1, K2, K3, K4, K5, K6, K7, K8, K9, K10, K11, K12, K13, K14, K15, K16, K17, K18, K19, K20, K21, K22, K23, K24, K25, K26, K27, K28, K29) where
    (K0, K1, K2, K3, K4, K5, K6, K7, K8, K9, K10, K11, K12, K13, K14, K15): UpdateColumnValues<S, (V0, V1, V2, V3, V4, V5, V6, V7, V8, V9, V10, V11, V12, V13, V14, V15)>,
    (K16, K17, K18, K19, K20, K21, K22, K23, K24, K25, K26, K27, K28, K29): UpdateColumnValues<S, (V16, V17, V18, V19, V20, V21, V22, V23, V24, V25, V26, V27, V28, V29)>,
    <<(K0, K1, K2, K3, K4, K5, K6, K7, K8, K9, K10, K11, K12, K13, K14, K15) as UpdateColumnValues<S, (V0, V1, V2, V3, V4, V5, V6, V7, V8, V9, V10, V11, V12, V13, V14, V15)>>::Assignments as UpdateAssignments>::Params: HAppend<
        <<(K16, K17, K18, K19, K20, K21, K22, K23, K24, K25, K26, K27, K28, K29) as UpdateColumnValues<S, (V16, V17, V18, V19, V20, V21, V22, V23, V24, V25, V26, V27, V28, V29)>>::Assignments as UpdateAssignments>::Params,
    >,
 {
    type Assignments = Joined<
        <(K0, K1, K2, K3, K4, K5, K6, K7, K8, K9, K10, K11, K12, K13, K14, K15) as UpdateColumnValues<S, (V0, V1, V2, V3, V4, V5, V6, V7, V8, V9, V10, V11, V12, V13, V14, V15)>>::Assignments,
        <(K16, K17, K18, K19, K20, K21, K22, K23, K24, K25, K26, K27, K28, K29) as UpdateColumnValues<S, (V16, V17, V18, V19, V20, V21, V22, V23, V24, V25, V26, V27, V28, V29)>>::Assignments,
    >;

    open spec fn column_names() -> Seq<&'static str> {
        <(K0, K1, K2, K3, K4, K5, K6, K7, K8, K9, K10, K11, K12, K13, K14, K15) as UpdateColumnValues<S, (V0, V1, V2, V3, V4, V5, V6, V7, V8, V9, V10, V11, V12, V13, V14, V15)>>::column_names() + <(K16, K17, K18, K19, K20, K21, K22, K23, K24, K25, K26, K27, K28, K29) as UpdateColumnValues<S, (V16, V17, V18, V19, V20, V21, V22, V23, V24, V25, V26, V27, V28, V29)>>::column_names()
    }

    open spec fn assigns(values: (V0, V1, V2, V3, V4, V5, V6, V7, V8, V9, V10, V11, V12, V13, V14, V15, V16, V17, V18, V19, V20, V21, V22, V23, V24, V25, V26, V27, V28, V29), assignments: Self::Assignments) -> bool {
        &&& <(K0, K1, K2, K3, K4, K5, K6, K7, K8, K9, K10, K11, K12, K13, K14, K15) as UpdateColumnValues<S, (V0, V1, V2, V3, V4, V5, V6, V7, V8, V9, V10, V11, V12, V13, V14, V15)>>::assigns((values.0, values.1, values.2, values.3, values.4, values.5, values.6, values.7, values.8, values.9, values.10, values.11, values.12, values.13, values.14, values.15), assignments.first)
        &&& <(K16, K17, K18, K19, K20, K21, K22, K23, K24, K25, K26, K27, K28, K29) as UpdateColumnValues<S, (V16, V17, V18, V19, V20, V21, V22, V23, V24, V25, V26, V27, V28, V29)>>::assigns((values.16, values.17, values.18, values.19, values.20, values.21, values.22, values.23, values.24, values.25, values.26, values.27, values.28, values.29), assignments.second)
    }

    fn into_update_assignments(values: (V0, V1, V2, V3, V4, V5, V6, V7, V8, V9, V10, V11, V12, V13, V14, V15, V16, V17, V18, V19, V20, V21, V22, V23, V24, V25, V26, V27, V28, V29)) -> (assignments: Self::Assignments) {
        let first = <(K0, K1, K2, K3, K4, K5, K6, K7, K8, K9, K10, K11, K12, K13, K14, K15) as UpdateColumnValues<S, (V0, V1, V2, V3, V4, V5, V6, V7, V8, V9, V10, V11, V12, V13, V14, V15)>>::into_update_assignments((values.0, values.1, values.2, values.3, values.4, values.5, values.6, values.7, values.8, values.9, values.10, values.11, values.12, values.13, values.14, values.15));
        let second = <(K16, K17, K18, K19, K20, K21, K22, K23, K24, K25, K26, K27, K28, K29) as UpdateColumnValues<S, (V16, V17, V18, V19, V20, V21, V22, V23, V24, V25, V26, V27, V28, V29)>>::into_update_assignments((values.16, values.17, values.18, values.19, values.20, values.21, values.22, values.23, values.24, values.25, values.26, values.27, values.28, values.29));
        Joined { first, second }
    }
}

impl<
    S: UpdateableTable,
    K0, K1, K2, K3, K4, K5, K6, K7, K8, K9, K10, K11, K12, K13, K14, K15, K16, K17, K18, K19, K20, K21, K22, K23, K24, K25, K26, K27, K28, K29, K30,
    V0, V1, V2, V3, V4, V5, V6, V7, V8, V9, V10, V11, V12, V13, V14, V15, V16, V17, V18, V19, V20, V21, V22, V23, V24, V25, V26, V27, V28, V29, V30,
> UpdateColumnValues<S, (V0, V1, V2, V3, V4, V5, V6, V7, V8, V9, V10, V11, V12, V13, V14, V15, V16, V17, V18, V19, V20, V21, V22, V23, V24, V25, V26, V27, V28, V29, V30)> for (K0, K1, K2, K3, K4, K5, K6, K7, K8, K9, K10, K11, K12, K13, K14, K15, K16, K17, K18, K19, K20, K21, K22, K23, K24, K25, K26, K27, K28, K29, K30) where
    (K0, K1, K2, K3, K4, K5, K6, K7, K8, K9, K10, K11, K12, K13, K14, K15): UpdateColumnValues<S, (V0, V1, V2, V3, V4, V5, V6, V7, V8, V9, V10, V11, V12, V13, V14, V15)>,
    (K16, K17, K18, K19, K20, K21, K22, K23, K24, K25, K26, K27, K28, K29, K30): UpdateColumnValues<S, (V16, V17, V18, V19, V20, V21, V22, V23, V24, V25, V26, V27, V28, V29, V30)>,
    <<(K0, K1, K2, K3, K4, K5, K6, K7, K8, K9, K10, K11, K12, K13, K14, K15) as UpdateColumnValues<S, (V0, V1, V2, V3, V4, V5, V6, V7, V8, V9, V10, V11, V12, V13, V14, V15)>>::Assignments as UpdateAssignments>::Params: HAppend<
        <<(K16, K17, K18, K19, K20, K21, K22, K23, K24, K25, K26, K27, K28, K29, K30) as UpdateColumnValues<S, (V16, V17, V18, V19, V20, V21, V22, V23, V24, V25, V26, V27, V28, V29, V30)>>::Assignments as UpdateAssignments>::Params,
    >,
 {
    type Assignments = Joined<
        <(K0, K1, K2, K3, K4, K5, K6, K7, K8, K9, K10, K11, K12, K13, K14, K15) as UpdateColumnValues<S, (V0, V1, V2, V3, V4, V5, V6, V7, V8, V9, V10, V11, V12, V13, V14, V15)>>::Assignments,
        <(K16, K17, K18, K19, K20, K21, K22, K23, K24, K25, K26, K27, K28, K29, K30) as UpdateColumnValues<S, (V16, V17, V18, V19, V20, V21, V22, V23, V24, V25, V26, V27, V28, V29, V30)>>::Assignments,
    >;

    open spec fn column_names() -> Seq<&'static str> {
        <(K0, K1, K2, K3, K4, K5, K6, K7, K8, K9, K10, K11, K12, K13, K14, K15) as UpdateColumnValues<S, (V0, V1, V2, V3, V4, V5, V6, V7, V8, V9, V10, V11, V12, V13, V14, V15)>>::column_names() + <(K16, K17, K18, K19, K20, K21, K22, K23, K24, K25, K26, K27, K28, K29, K30) as UpdateColumnValues<S, (V16, V17, V18, V19, V20, V21, V22, V23, V24, V25, V26, V27, V28, V29, V30)>>::column_names()
    }

    open spec fn assigns(values: (V0, V1, V2, V3, V4, V5, V6, V7, V8, V9, V10, V11, V12, V13, V14, V15, V16, V17, V18, V19, V20, V21, V22, V23, V24, V25, V26, V27, V28, V29, V30), assignments: Self::Assignments) -> bool {
        &&& <(K0, K1, K2, K3, K4, K5, K6, K7, K8, K9, K10, K11, K12, K13, K14, K15) as UpdateColumnValues<S, (V0, V1, V2, V3, V4, V5, V6, V7, V8, V9, V10, V11, V12, V13, V14, V15)>>::assigns((values.0, values.1, values.2, values.3, values.4, values.5, values.6, values.7, values.8, values.9, values.10, values.11, values.12, values.13, values.14, values.15), assignments.first)
        &&& <(K16, K17, K18, K19, K20, K21, K22, K23, K24, K25, K26, K27, K28, K29, K30) as UpdateColumnValues<S, (V16, V17, V18, V19, V20, V21, V22, V23, V24, V25, V26, V27, V28, V29, V30)>>::assigns((values.16, values.17, values.18, values.19, values.20, values.21, values.22, values.23, values.24, values.25, values.26, values.27, values.28, values.29, values.30), assignments.second)
    }

    fn into_update_assignments(values: (V0, V1, V2, V3, V4, V5, V6, V7, V8, V9, V10, V11, V12, V13, V14, V15, V16, V17, V18, V19, V20, V21, V22, V23, V24, V25, V26, V27, V28, V29, V30)) -> (assignments: Self::Assignments) {
        let first = <(K0, K1, K2, K3, K4, K5, K6, K7, K8, K9, K10, K11, K12, K13, K14, K15) as UpdateColumnValues<S, (V0, V1, V2, V3, V4, V5, V6, V7, V8, V9, V10, V11, V12, V13, V14, V15)>>::into_update_assignments((values.0, values.1, values.2, values.3, values.4, values.5, values.6, values.7, values.8, values.9, values.10, values.11, values.12, values.13, values.14, values.15));
        let second = <(K16, K17, K18, K19, K20, K21, K22, K23, K24, K25, K26, K27, K28, K29, K30) as UpdateColumnValues<S, (V16, V17, V18, V19, V20, V21, V22, V23, V24, V25, V26, V27, V28, V29, V30)>>::into_update_assignments((values.16, values.17, values.18, values.19, values.20, values.21, values.22, values.23, values.24, values.25, values.26, values.27, values.28, values.29, values.30));
        Joined { first, second }
    }
}

impl<
    S: UpdateableTable,
    K0, K1, K2, K3, K4, K5, K6, K7, K8, K9, K10, K11, K12, K13, K14, K15, K16, K17, K18, K19, K20, K21, K22, K23, K24, K25, K26, K27, K28, K29, K30, K31,
    V0, V1, V2, V3, V4, V5, V6, V7, V8, V9, V10, V11, V12, V13, V14, V15, V16, V17, V18, V19, V20, V21, V22, V23, V24, V25, V26, V27, V28, V29, V30, V31,
> UpdateColumnValues<S, (V0, V1, V2, V3, V4, V5, V6, V7, V8, V9, V10, V11, V12, V13, V14, V15, V16, V17, V18, V19, V20, V21, V22, V23, V24, V25, V26, V27, V28, V29, V30, V31)> for (K0, K1, K2, K3, K4, K5, K6, K7, K8, K9, K10, K11, K12, K13, K14, K15, K16, K17, K18, K19, K20, K21, K22, K23, K24, K25, K26, K27, K28, K29, K30, K31) where
    (K0, K1, K2, K3, K4, K5, K6, K7, K8, K9, K10, K11, K12, K13, K14, K15): UpdateColumnValues<S, (V0, V1, V2, V3, V4, V5, V6, V7, V8, V9, V10, V11, V12, V13, V14, V15)>,
    (K16, K17, K18, K19, K20, K21, K22, K23, K24, K25, K26, K27, K28, K29, K30, K31): UpdateColumnValues<S, (V16, V17, V18, V19, V20, V21, V22, V23, V24, V25, V26, V27, V28, V29, V30, V31)>,
    <<(K0, K1, K2, K3, K4, K5, K6, K7, K8, K9, K10, K11, K12, K13, K14, K15) as UpdateColumnValues<S, (V0, V1, V2, V3, V4, V5, V6, V7, V8, V9, V10, V11, V12, V13, V14, V15)>>::Assignments as UpdateAssignments>::Params: HAppend<
        <<(K16, K17, K18, K19, K20, K21, K22, K23, K24, K25, K26, K27, K28, K29, K30, K31) as UpdateColumnValues<S, (V16, V17, V18, V19, V20, V21, V22, V23, V24, V25, V26, V27, V28, V29, V30, V31)>>::Assignments as UpdateAssignments>::Params,
    >,
 {
    type Assignments = Joined<
        <(K0, K1, K2, K3, K4, K5, K6, K7, K8, K9, K10, K11, K12, K13, K14, K15) as UpdateColumnValues<S, (V0, V1, V2, V3, V4, V5, V6, V7, V8, V9, V10, V11, V12, V13, V14, V15)>>::Assignments,
        <(K16, K17, K18, K19, K20, K21, K22, K23, K24, K25, K26, K27, K28, K29, K30, K31) as UpdateColumnValues<S, (V16, V17, V18, V19, V20, V21, V22, V23, V24, V25, V26, V27, V28, V29, V30, V31)>>::Assignments,
    >;

    open spec fn column_names() -> Seq<&'static str> {
        <(K0, K1, K2, K3, K4, K5, K6, K7, K8, K9, K10, K11, K12, K13, K14, K15) as UpdateColumnValues<S, (V0, V1, V2, V3, V4, V5, V6, V7, V8, V9, V10, V11, V12, V13, V14, V15)>>::column_names() + <(K16, K17, K18, K19, K20, K21, K22, K23, K24, K25, K26, K27, K28, K29, K30, K31) as UpdateColumnValues<S, (V16, V17, V18, V19, V20, V21, V22, V23, V24, V25, V26, V27, V28, V29, V30, V31)>>::column_names()
    }

    open spec fn assigns(values: (V0, V1, V2, V3, V4, V5, V6, V7, V8, V9, V10, V11, V12, V13, V14, V15, V16, V17, V18, V19, V20, V21, V22, V23, V24, V25, V26, V27, V28, V29, V30, V31), assignments: Self::Assignments) -> bool {
        &&& <(K0, K1, K2, K3, K4, K5, K6, K7, K8, K9, K10, K11, K12, K13, K14, K15) as UpdateColumnValues<S, (V0, V1, V2, V3, V4, V5, V6, V7, V8, V9, V10, V11, V12, V13, V14, V15)>>::assigns((values.0, values.1, values.2, values.3, values.4, values.5, values.6, values.7, values.8, values.9, values.10, values.11, values.12, values.13, values.14, values.15), assignments.first)
        &&& <(K16, K17, K18, K19, K20, K21, K22, K23, K24, K25, K26, K27, K28, K29, K30, K31) as UpdateColumnValues<S, (V16, V17, V18, V19, V20, V21, V22, V23, V24, V25, V26, V27, V28, V29, V30, V31)>>::assigns((values.16, values.17, values.18, values.19, values.20, values.21, values.22, values.23, values.24, values.25, values.26, values.27, values.28, values.29, values.30, values.31), assignments.second)
    }

    fn into_update_assignments(values: (V0, V1, V2, V3, V4, V5, V6, V7, V8, V9, V10, V11, V12, V13, V14, V15, V16, V17, V18, V19, V20, V21, V22, V23, V24, V25, V26, V27, V28, V29, V30, V31)) -> (assignments: Self::Assignments) {
        let first = <(K0, K1, K2, K3, K4, K5, K6, K7, K8, K9, K10, K11, K12, K13, K14, K15) as UpdateColumnValues<S, (V0, V1, V2, V3, V4, V5, V6, V7, V8, V9, V10, V11, V12, V13, V14, V15)>>::into_update_assignments((values.0, values.1, values.2, values.3, values.4, values.5, values.6, values.7, values.8, values.9, values.10, values.11, values.12, values.13, values.14, values.15));
        let second = <(K16, K17, K18, K19, K20, K21, K22, K23, K24, K25, K26, K27, K28, K29, K30, K31) as UpdateColumnValues<S, (V16, V17, V18, V19, V20, V21, V22, V23, V24, V25, V26, V27, V28, V29, V30, V31)>>::into_update_assignments((values.16, values.17, values.18, values.19, values.20, values.21, values.22, values.23, values.24, values.25, values.26, values.27, values.28, values.29, values.30, values.31));
        Joined { first, second }
    }
}

} // verus!
