//! Names that are either compiled in or computed, and exact duplication of values.
use crate::text::same_text;
use vstd::prelude::*;

verus! {

/// A value that can be copied exactly: the copy equals the value.
pub trait Duplicate: Sized {
    /// An exact copy of `self`.
    fn duplicate(&self) -> (copy: Self)
        ensures
            copy == *self,
    ;
}

/// A column name or an output alias: a compiled-in string, or one that was computed.
#[derive(Clone, Debug)]
pub enum Label {
    Static(&'static str),
    Owned(String),
}

impl Label {
    /// The characters of the name.
    pub open spec fn view(&self) -> Seq<char> {
        match self {
            Label::Static(text) => text@,
            Label::Owned(text) => text@,
        }
    }

    /// The name as a string slice.
    pub fn as_str(&self) -> (text: &str)
        ensures
            text@ == self@,
    {
        match self {
            Label::Static(text) => text,
            Label::Owned(text) => text.as_str(),
        }
    }
}

impl vstd::std_specs::cmp::PartialEqSpecImpl for Label {
    open spec fn obeys_eq_spec() -> bool {
        true
    }

    open spec fn eq_spec(&self, other: &Label) -> bool {
        self@ == other@
    }
}

impl PartialEq for Label {
    fn eq(&self, other: &Label) -> (equal: bool) {
        same_text(self.as_str(), other.as_str())
    }
}

impl Duplicate for Label {
    fn duplicate(&self) -> (copy: Label) {
        match self {
            Label::Static(text) => Label::Static(text),
            Label::Owned(text) => Label::Owned(text.clone()),
        }
    }
}

impl vstd::std_specs::convert::FromSpecImpl<&'static str> for Label {
    open spec fn obeys_from_spec() -> bool {
        true
    }

    open spec fn from_spec(text: &'static str) -> Label {
        Label::Static(text)
    }
}

impl From<&'static str> for Label {
    fn from(text: &'static str) -> (label: Label) {
        Label::Static(text)
    }
}

impl vstd::std_specs::convert::FromSpecImpl<String> for Label {
    open spec fn obeys_from_spec() -> bool {
        true
    }

    open spec fn from_spec(text: String) -> Label {
        Label::Owned(text)
    }
}

impl From<String> for Label {
    fn from(text: String) -> (label: Label) {
        Label::Owned(text)
    }
}

impl Duplicate for bool {
    fn duplicate(&self) -> (copy: bool) {
        *self
    }
}

impl Duplicate for i8 {
    fn duplicate(&self) -> (copy: i8) {
        *self
    }
}

impl Duplicate for i16 {
    fn duplicate(&self) -> (copy: i16) {
        *self
    }
}

impl Duplicate for i32 {
    fn duplicate(&self) -> (copy: i32) {
        *self
    }
}

impl Duplicate for i64 {
    fn duplicate(&self) -> (copy: i64) {
        *self
    }
}

impl Duplicate for i128 {
    fn duplicate(&self) -> (copy: i128) {
        *self
    }
}

impl Duplicate for isize {
    fn duplicate(&self) -> (copy: isize) {
        *self
    }
}

impl Duplicate for u8 {
    fn duplicate(&self) -> (copy: u8) {
        *self
    }
}

impl Duplicate for u16 {
    fn duplicate(&self) -> (copy: u16) {
        *self
    }
}

impl Duplicate for u32 {
    fn duplicate(&self) -> (copy: u32) {
        *self
    }
}

impl Duplicate for u64 {
    fn duplicate(&self) -> (copy: u64) {
        *self
    }
}

impl Duplicate for u128 {
    fn duplicate(&self) -> (copy: u128) {
        *self
    }
}

impl Duplicate for usize {
    fn duplicate(&self) -> (copy: usize) {
        *self
    }
}

impl Duplicate for String {
    fn duplicate(&self) -> (copy: String) {
        self.clone()
    }
}

impl<'a> Duplicate for &'a str {
    fn duplicate(&self) -> (copy: &'a str) {
        *self
    }
}

impl<const N: usize> Duplicate for [u8; N] {
    fn duplicate(&self) -> (copy: [u8; N]) {
        *self
    }
}

impl<T: Duplicate> Duplicate for Option<T> {
    fn duplicate(&self) -> (copy: Option<T>) {
        match self {
            Some(value) => Some(value.duplicate()),
            None => None,
        }
    }
}

} // verus!
