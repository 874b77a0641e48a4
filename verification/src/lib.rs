//! A declarative constraint-validation engine.
//!
//! A schema ([`schema::StructSpec`]) binds rules to the named fields of a
//! structured value ([`value::Value`]) and may add struct-level rules that
//! read several fields at once, optionally together with an externally
//! owned context ([`context::DatabaseContex`]). Validation walks the whole
//! schema, never stopping at the first failure, and returns an
//! [`report::ErrorReport`]: an ordered list of violations, each under the
//! path of the field it concerns. Caller mistakes (a rule on a field the
//! value does not have, a context-reading rule invoked without a context)
//! abort the call with a [`report::UsageError`] instead of being folded
//! into the report.

pub mod context;
pub mod engine;
pub mod entities;
pub mod laws;
pub mod report;
pub mod rules;
pub mod schema;
pub mod value;
