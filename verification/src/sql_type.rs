//! Backend-neutral SQL types.
use crate::label::Duplicate;
use vstd::prelude::*;

verus! {

/// A logical SQL type. Backends decide how each of these is spelled.
#[derive(Clone, Debug, PartialEq, Eq)]
pub enum SqlType {
    I8,
    I16,
    I32,
    I64,
    I128,
    Isize,
    U8,
    U16,
    U32,
    U64,
    U128,
    Usize,
    F32,
    F64,
    String,
    Bool,
    Varchar(u32),
    Char(u32),
    Text,
    Decimal { precision: u32, scale: u32 },
    Date,
    Time { tz: bool, precision: Option<u32> },
    Timestamp { tz: bool, precision: Option<u32> },
    Uuid,
    Json,
    Jsonb,
    Bytes,
    /// A binary value of a fixed number of bytes.
    FixedBytes(u32),
    /// A backend-specific type name, used as it stands.
    Raw(String),
}

impl Duplicate for SqlType {
    fn duplicate(&self) -> (copy: SqlType) {
        match self {
            SqlType::I8 => SqlType::I8,
            SqlType::I16 => SqlType::I16,
            SqlType::I32 => SqlType::I32,
            SqlType::I64 => SqlType::I64,
            SqlType::I128 => SqlType::I128,
            SqlType::Isize => SqlType::Isize,
            SqlType::U8 => SqlType::U8,
            SqlType::U16 => SqlType::U16,
            SqlType::U32 => SqlType::U32,
            SqlType::U64 => SqlType::U64,
            SqlType::U128 => SqlType::U128,
            SqlType::Usize => SqlType::Usize,
            SqlType::F32 => SqlType::F32,
            SqlType::F64 => SqlType::F64,
            SqlType::String => SqlType::String,
            SqlType::Bool => SqlType::Bool,
            SqlType::Varchar(length) => SqlType::Varchar(*length),
            SqlType::Char(length) => SqlType::Char(*length),
            SqlType::Text => SqlType::Text,
            SqlType::Decimal { precision, scale } => SqlType::Decimal {
                precision: *precision,
                scale: *scale,
            },
            SqlType::Date => SqlType::Date,
            SqlType::Time { tz, precision } => SqlType::Time { tz: *tz, precision: *precision },
            SqlType::Timestamp { tz, precision } => SqlType::Timestamp {
                tz: *tz,
                precision: *precision,
            },
            SqlType::Uuid => SqlType::Uuid,
            SqlType::Json => SqlType::Json,
            SqlType::Jsonb => SqlType::Jsonb,
            SqlType::Bytes => SqlType::Bytes,
            SqlType::FixedBytes(width) => SqlType::FixedBytes(*width),
            SqlType::Raw(name) => SqlType::Raw(name.clone()),
        }
    }
}

} // verus!
