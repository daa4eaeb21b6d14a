//! Compilation and evaluation of query predicates over columnar tile data.
//!
//! A query condition tree is turned into a typed logical expression,
//! tile buffers are decoded into a columnar batch, and the outcome of
//! evaluating a predicate is folded into a per-row selection bitmap.
//!
//! The modules, from the leaves up:
//!
//! - [`enums`], [`misc`], [`native`]: discriminants, raw bytes and names,
//!   and values in their native representation.
//! - [`array_schema`], [`ast`], [`tile`]: what the storage engine hands
//!   over, as plain values.
//! - [`offsets`]: byte offsets to element offsets.
//! - [`schema`], [`enumeration`]: the columnar view of an array schema.
//! - [`record_batch`]: tiles to columns.
//! - [`logical_expr`], [`query_condition`]: query conditions to logical
//!   expressions.
//! - [`engine`], [`physical_expr`], [`session`]: the expression engine,
//!   which parses, compiles and evaluates.
//! - [`bitmap`], [`query_predicates`]: outcomes into selection bitmaps.
//! - [`arithmetic`], [`iterator_ext`]: small tools.

pub mod arithmetic;
pub mod array_schema;
pub mod ast;
pub mod bitmap;
pub mod engine;
pub mod enumeration;
pub mod enums;
pub mod iterator_ext;
pub mod logical_expr;
pub mod misc;
pub mod native;
pub mod offsets;
pub mod physical_expr;
pub mod query_condition;
pub mod query_predicates;
pub mod record_batch;
pub mod schema;
pub mod session;
pub mod tile;
