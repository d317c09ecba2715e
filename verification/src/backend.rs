//! What a backend provides: its bound parameters and rows, and how Rust values become and come from
//! them.
use crate::chain::List;
use crate::number::{Float32, Float64};
use crate::tree::Encoded;
use vstd::prelude::*;

verus! {

/// A database backend.
pub trait Backend: Sized {
    type Error;

    /// The backend's native bound-parameter representation.
    type Param;

    /// The cursor from which the values of a row are read, one after the other.
    type RowReader;

    /// Whether an error says that a query that owed a row gave none.
    open spec fn is_no_rows(error: Self::Error) -> bool {
        arbitrary()
    }

    /// The error of a query that owed a row and gave none.
    fn no_rows_error() -> (error: Self::Error)
        ensures
            Self::is_no_rows(error),
    ;
}

/// A literal as the backend `B` binds it.
pub type Bound<B> = Encoded<<B as Backend>::Param, <B as Backend>::Error>;

/// Encodes a Rust value as a backend's bound parameters.
pub trait Encode<B: Backend> {
    /// The parameters that the value is bound as, or why it cannot be.
    open spec fn encoded(&self) -> Result<List<B::Param>, B::Error> {
        arbitrary()
    }

    fn encode(&self) -> (outcome: Result<List<B::Param>, B::Error>)
        ensures
            outcome == self.encoded(),
    ;
}

impl<B: Backend> Encode<B> for () {
    open spec fn encoded(&self) -> Result<List<B::Param>, B::Error> {
        Ok(List::Nil)
    }

    fn encode(&self) -> (outcome: Result<List<B::Param>, B::Error>) {
        Ok(List::Nil)
    }
}

impl<B: Backend, T: Encode<B>> Encode<B> for &T {
    open spec fn encoded(&self) -> Result<List<B::Param>, B::Error> {
        (**self).encoded()
    }

    fn encode(&self) -> (outcome: Result<List<B::Param>, B::Error>) {
        (**self).encode()
    }
}

/// Decodes a Rust value from a row.
pub trait Decode<B: Backend>: Sized {
    /// Whether reading at `before` gives `outcome` and leaves the cursor at `after`.
    open spec fn decoded(
        before: B::RowReader,
        after: B::RowReader,
        outcome: Result<Self, B::Error>,
    ) -> bool {
        arbitrary()
    }

    fn decode(row: &mut B::RowReader) -> (outcome: Result<Self, B::Error>)
        ensures
            Self::decoded(*old(row), *final(row), outcome),
    ;
}

impl<B: Backend> Decode<B> for () {
    open spec fn decoded(
        before: B::RowReader,
        after: B::RowReader,
        outcome: Result<(), B::Error>,
    ) -> bool {
        outcome is Ok && after == before
    }

    fn decode(row: &mut B::RowReader) -> (outcome: Result<(), B::Error>) {
        Ok(())
    }
}

/// A cursor over the values of a row.
pub trait RowReader: Sized {
    type Backend: Backend<RowReader = Self>;

    /// Reads the next value.
    fn read<T: Decode<Self::Backend>>(&mut self) -> (outcome: Result<
        T,
        <Self::Backend as Backend>::Error,
    >)
        ensures
            T::decoded(*old(self), *final(self), outcome),
    ;
}

/// Collects the bound parameters that values are encoded as.
pub trait ParamWriter: Sized {
    type Backend: Backend;

    /// The parameters so far, first to last.
    open spec fn written(&self) -> Seq<<Self::Backend as Backend>::Param> {
        arbitrary()
    }

    /// Adds the parameters of a value.
    fn write<T: Encode<Self::Backend>>(&mut self, value: &T) -> (outcome: Result<
        (),
        <Self::Backend as Backend>::Error,
    >)
        ensures
            match value.encoded() {
                Ok(params) => outcome is Ok && final(self).written() == old(self).written()
                    + params.seq(),
                Err(error) => outcome == Err::<(), <Self::Backend as Backend>::Error>(error),
            },
    ;
}

/// Decodes a Rust value from a row in which the column may be null.
pub trait DecodeNullable<B: Backend>: Sized {
    /// Whether reading at `before` gives `outcome` and leaves the cursor at `after`.
    open spec fn decoded_nullable(
        before: B::RowReader,
        after: B::RowReader,
        outcome: Result<Option<Self>, B::Error>,
    ) -> bool {
        arbitrary()
    }

    fn decode_nullable(row: &mut B::RowReader) -> (outcome: Result<Option<Self>, B::Error>)
        ensures
            Self::decoded_nullable(*old(row), *final(row), outcome),
    ;
}

impl<B: Backend> DecodeNullable<B> for i8 where Option<i8>: Decode<B> {
    open spec fn decoded_nullable(
        before: B::RowReader,
        after: B::RowReader,
        outcome: Result<Option<i8>, B::Error>,
    ) -> bool {
        <Option<i8> as Decode<B>>::decoded(before, after, outcome)
    }

    fn decode_nullable(row: &mut B::RowReader) -> (outcome: Result<Option<i8>, B::Error>) {
        <Option<i8> as Decode<B>>::decode(row)
    }
}

impl<B: Backend> DecodeNullable<B> for i16 where Option<i16>: Decode<B> {
    open spec fn decoded_nullable(
        before: B::RowReader,
        after: B::RowReader,
        outcome: Result<Option<i16>, B::Error>,
    ) -> bool {
        <Option<i16> as Decode<B>>::decoded(before, after, outcome)
    }

    fn decode_nullable(row: &mut B::RowReader) -> (outcome: Result<Option<i16>, B::Error>) {
        <Option<i16> as Decode<B>>::decode(row)
    }
}

impl<B: Backend> DecodeNullable<B> for i32 where Option<i32>: Decode<B> {
    open spec fn decoded_nullable(
        before: B::RowReader,
        after: B::RowReader,
        outcome: Result<Option<i32>, B::Error>,
    ) -> bool {
        <Option<i32> as Decode<B>>::decoded(before, after, outcome)
    }

    fn decode_nullable(row: &mut B::RowReader) -> (outcome: Result<Option<i32>, B::Error>) {
        <Option<i32> as Decode<B>>::decode(row)
    }
}

impl<B: Backend> DecodeNullable<B> for i64 where Option<i64>: Decode<B> {
    open spec fn decoded_nullable(
        before: B::RowReader,
        after: B::RowReader,
        outcome: Result<Option<i64>, B::Error>,
    ) -> bool {
        <Option<i64> as Decode<B>>::decoded(before, after, outcome)
    }

    fn decode_nullable(row: &mut B::RowReader) -> (outcome: Result<Option<i64>, B::Error>) {
        <Option<i64> as Decode<B>>::decode(row)
    }
}

impl<B: Backend> DecodeNullable<B> for i128 where Option<i128>: Decode<B> {
    open spec fn decoded_nullable(
        before: B::RowReader,
        after: B::RowReader,
        outcome: Result<Option<i128>, B::Error>,
    ) -> bool {
        <Option<i128> as Decode<B>>::decoded(before, after, outcome)
    }

    fn decode_nullable(row: &mut B::RowReader) -> (outcome: Result<Option<i128>, B::Error>) {
        <Option<i128> as Decode<B>>::decode(row)
    }
}

impl<B: Backend> DecodeNullable<B> for isize where Option<isize>: Decode<B> {
    open spec fn decoded_nullable(
        before: B::RowReader,
        after: B::RowReader,
        outcome: Result<Option<isize>, B::Error>,
    ) -> bool {
        <Option<isize> as Decode<B>>::decoded(before, after, outcome)
    }

    fn decode_nullable(row: &mut B::RowReader) -> (outcome: Result<Option<isize>, B::Error>) {
        <Option<isize> as Decode<B>>::decode(row)
    }
}

impl<B: Backend> DecodeNullable<B> for u8 where Option<u8>: Decode<B> {
    open spec fn decoded_nullable(
        before: B::RowReader,
        after: B::RowReader,
        outcome: Result<Option<u8>, B::Error>,
    ) -> bool {
        <Option<u8> as Decode<B>>::decoded(before, after, outcome)
    }

    fn decode_nullable(row: &mut B::RowReader) -> (outcome: Result<Option<u8>, B::Error>) {
        <Option<u8> as Decode<B>>::decode(row)
    }
}

impl<B: Backend> DecodeNullable<B> for u16 where Option<u16>: Decode<B> {
    open spec fn decoded_nullable(
        before: B::RowReader,
        after: B::RowReader,
        outcome: Result<Option<u16>, B::Error>,
    ) -> bool {
        <Option<u16> as Decode<B>>::decoded(before, after, outcome)
    }

    fn decode_nullable(row: &mut B::RowReader) -> (outcome: Result<Option<u16>, B::Error>) {
        <Option<u16> as Decode<B>>::decode(row)
    }
}

impl<B: Backend> DecodeNullable<B> for u32 where Option<u32>: Decode<B> {
    open spec fn decoded_nullable(
        before: B::RowReader,
        after: B::RowReader,
        outcome: Result<Option<u32>, B::Error>,
    ) -> bool {
        <Option<u32> as Decode<B>>::decoded(before, after, outcome)
    }

    fn decode_nullable(row: &mut B::RowReader) -> (outcome: Result<Option<u32>, B::Error>) {
        <Option<u32> as Decode<B>>::decode(row)
    }
}

impl<B: Backend> DecodeNullable<B> for u64 where Option<u64>: Decode<B> {
    open spec fn decoded_nullable(
        before: B::RowReader,
        after: B::RowReader,
        outcome: Result<Option<u64>, B::Error>,
    ) -> bool {
        <Option<u64> as Decode<B>>::decoded(before, after, outcome)
    }

    fn decode_nullable(row: &mut B::RowReader) -> (outcome: Result<Option<u64>, B::Error>) {
        <Option<u64> as Decode<B>>::decode(row)
    }
}

impl<B: Backend> DecodeNullable<B> for u128 where Option<u128>: Decode<B> {
    open spec fn decoded_nullable(
        before: B::RowReader,
        after: B::RowReader,
        outcome: Result<Option<u128>, B::Error>,
    ) -> bool {
        <Option<u128> as Decode<B>>::decoded(before, after, outcome)
    }

    fn decode_nullable(row: &mut B::RowReader) -> (outcome: Result<Option<u128>, B::Error>) {
        <Option<u128> as Decode<B>>::decode(row)
    }
}

impl<B: Backend> DecodeNullable<B> for usize where Option<usize>: Decode<B> {
    open spec fn decoded_nullable(
        before: B::RowReader,
        after: B::RowReader,
        outcome: Result<Option<usize>, B::Error>,
    ) -> bool {
        <Option<usize> as Decode<B>>::decoded(before, after, outcome)
    }

    fn decode_nullable(row: &mut B::RowReader) -> (outcome: Result<Option<usize>, B::Error>) {
        <Option<usize> as Decode<B>>::decode(row)
    }
}

impl<B: Backend> DecodeNullable<B> for Float32 where Option<Float32>: Decode<B> {
    open spec fn decoded_nullable(
        before: B::RowReader,
        after: B::RowReader,
        outcome: Result<Option<Float32>, B::Error>,
    ) -> bool {
        <Option<Float32> as Decode<B>>::decoded(before, after, outcome)
    }

    fn decode_nullable(row: &mut B::RowReader) -> (outcome: Result<Option<Float32>, B::Error>) {
        <Option<Float32> as Decode<B>>::decode(row)
    }
}

impl<B: Backend> DecodeNullable<B> for Float64 where Option<Float64>: Decode<B> {
    open spec fn decoded_nullable(
        before: B::RowReader,
        after: B::RowReader,
        outcome: Result<Option<Float64>, B::Error>,
    ) -> bool {
        <Option<Float64> as Decode<B>>::decoded(before, after, outcome)
    }

    fn decode_nullable(row: &mut B::RowReader) -> (outcome: Result<Option<Float64>, B::Error>) {
        <Option<Float64> as Decode<B>>::decode(row)
    }
}

impl<B: Backend> DecodeNullable<B> for String where Option<String>: Decode<B> {
    open spec fn decoded_nullable(
        before: B::RowReader,
        after: B::RowReader,
        outcome: Result<Option<String>, B::Error>,
    ) -> bool {
        <Option<String> as Decode<B>>::decoded(before, after, outcome)
    }

    fn decode_nullable(row: &mut B::RowReader) -> (outcome: Result<Option<String>, B::Error>) {
        <Option<String> as Decode<B>>::decode(row)
    }
}

impl<B: Backend> DecodeNullable<B> for bool where Option<bool>: Decode<B> {
    open spec fn decoded_nullable(
        before: B::RowReader,
        after: B::RowReader,
        outcome: Result<Option<bool>, B::Error>,
    ) -> bool {
        <Option<bool> as Decode<B>>::decoded(before, after, outcome)
    }

    fn decode_nullable(row: &mut B::RowReader) -> (outcome: Result<Option<bool>, B::Error>) {
        <Option<bool> as Decode<B>>::decode(row)
    }
}

/// Marker for backends whose dialect supports `RETURNING` on data-modifying statements.
pub trait SupportsReturning: Backend {

}

/// The optional schema metadata that a backend can both render and read back.
#[derive(Clone, Copy, Debug, PartialEq, Eq, Structural)]
pub struct SchemaCapabilities {
    pub constraints: ConstraintCapabilities,
    pub indexes: IndexCapabilities,
}

/// The optional constraint metadata that a backend can both render and read back.
#[derive(Clone, Copy, Debug, PartialEq, Eq, Structural)]
pub struct ConstraintCapabilities {
    pub foreign_key_match_type: bool,
    pub foreign_key_deferrability: bool,
    pub foreign_key_validation: bool,
    pub foreign_key_enforcement: bool,
    pub check_validation: bool,
    pub check_enforcement: bool,
}

/// The optional index metadata that a backend can both render and read back.
#[derive(Clone, Copy, Debug, PartialEq, Eq, Structural)]
pub struct IndexCapabilities {
    pub predicates: bool,
    pub expressions: bool,
    pub include_columns: bool,
    pub null_ordering: bool,
    pub collations: bool,
    pub operator_classes: bool,
}

impl Default for ConstraintCapabilities {
    fn default() -> (none: ConstraintCapabilities)
        ensures
            none == (ConstraintCapabilities {
                foreign_key_match_type: false,
                foreign_key_deferrability: false,
                foreign_key_validation: false,
                foreign_key_enforcement: false,
                check_validation: false,
                check_enforcement: false,
            }),
    {
        ConstraintCapabilities {
            foreign_key_match_type: false,
            foreign_key_deferrability: false,
            foreign_key_validation: false,
            foreign_key_enforcement: false,
            check_validation: false,
            check_enforcement: false,
        }
    }
}

impl Default for IndexCapabilities {
    fn default() -> (none: IndexCapabilities)
        ensures
            none == (IndexCapabilities {
                predicates: false,
                expressions: false,
                include_columns: false,
                null_ordering: false,
                collations: false,
                operator_classes: false,
            }),
    {
        IndexCapabilities {
            predicates: false,
            expressions: false,
            include_columns: false,
            null_ordering: false,
            collations: false,
            operator_classes: false,
        }
    }
}

impl Default for SchemaCapabilities {
    fn default() -> (none: SchemaCapabilities)
        ensures
            none.constraints == (ConstraintCapabilities {
                foreign_key_match_type: false,
                foreign_key_deferrability: false,
                foreign_key_validation: false,
                foreign_key_enforcement: false,
                check_validation: false,
                check_enforcement: false,
            }),
            none.indexes == (IndexCapabilities {
                predicates: false,
                expressions: false,
                include_columns: false,
                null_ordering: false,
                collations: false,
                operator_classes: false,
            }),
    {
        SchemaCapabilities {
            constraints: ConstraintCapabilities::default(),
            indexes: IndexCapabilities::default(),
        }
    }
}

/// One recorded schema publish.
#[derive(Clone, Debug, PartialEq, Eq)]
pub struct SchemaPublishRecord {
    pub mode: String,
    pub package_hash: String,
    pub package_format_version: String,
    pub applied_at: String,
}

} // verus!
