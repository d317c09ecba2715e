//! SQL queries as typed Rust values.
//!
//! A query is built from a source table, or a mutation from a destination table, by methods that each
//! add one clause. The finished statement is lowered into a tree ([`tree`]), and the tree is rendered
//! in a dialect ([`render`]) into SQL text and the parameters that are bound to it.
//!
//! - [`expr`], [`projection`] and [`query`] hold the builders. What can be written down is limited by
//!   types: a query with runtime parameters is known as such, and so is what its rows hold.
//! - [`tokens`] and [`grammar`] say what SQL a tree stands for; [`render`] is proved to write it. The
//!   laws about placeholders and parameters are in [`render::laws`], those about builders in
//!   [`query::laws`].
//! - [`view`] turns queries into neutral view bodies with inlined literals.
//! - [`meta`], [`model`], [`plan`] and [`schema`] describe tables, whole databases and the way from one
//!   to another.
//!
//! Backends implement some traits of this library, such as [`backend::Backend`] and
//! [`dialect::Dialect`]. Their specification functions have bodies that say nothing, so that code
//! without proofs can leave them out; the proofs here hold for every implementation that keeps the
//! stated contracts.
pub mod backend;
pub mod chain;
pub mod column;
pub mod connection;
pub mod dialect;
pub mod expr;
pub mod generator;
pub mod grammar;
pub mod ir;
pub mod label;
pub mod list;
pub mod meta;
pub mod model;
pub mod native;
pub mod node;
pub mod number;
pub mod ops;
pub mod params;
pub mod plain;
pub mod plan;
pub mod projection;
pub mod query;
pub mod render;
pub mod schema;
pub mod sql_type;
pub mod text;
pub mod tokens;
pub mod tree;
pub mod view;
