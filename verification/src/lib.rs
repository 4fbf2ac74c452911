//! Structural diffing for tree-shaped data models.
//!
//! The crate has two layers.  The *engine* layer gives runtime meaning to a
//! diff: a [`schema::Shape`] describes a record or variant type, a
//! [`value::Value`] is an instance of such a type, and [`engine`] computes
//! the typed difference of two instances, following the shape rules (empty,
//! single-field and multi-field records; same-case and cross-case variants).
//! The *synthesis* layer mirrors what a code generator would emit for one
//! source type: [`policy`] resolves per-type annotations into a generation
//! policy, and [`synth`] builds the declarations of the description and
//! change types together with the implementation plan.

pub mod protocol;
pub mod schema;
pub mod value;
pub mod engine;
pub mod laws;
pub mod decl;
pub mod names;
pub mod policy;
pub mod source;
pub mod synth;
