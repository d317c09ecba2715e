//! Typed queries.
//!
//! A query is a chain of nodes, each around the one before it. The chain's type records
//! its sources and parameters; what the query says is the tree that it lowers into.

pub mod assign;
pub mod built;
pub mod chain;
pub mod clause;
pub mod depth;
pub mod laws;
pub mod rows;
pub mod select;
pub mod set;
pub mod source;
pub mod statement;
pub mod steps;
