//! The bridge by which host code overrides the virtual methods of a foreign,
//! class-based object system, as a library of plain values.
//!
//! - [`class`]: class descriptors with their virtual-method slots, and the
//!   registry in which implementation types are registered once.
//! - [`tree_model_filter`]: the two overridable methods of a filter, the entry
//!   points that stand in the slots, and the way from an override to the
//!   inherited behaviour.
//! - [`tree_model`]: the child model that a filter stands in front of.
//! - [`value`]: tagged values and the integer encoding of booleans.
//! - [`priority`], [`error`]: the priority and the error record that cross
//!   the boundary.
//! - [`content_deserializer`]: the context of one deserialization.

pub mod class;
pub mod content_deserializer;
pub mod error;
pub mod priority;
pub mod tree_model;
pub mod tree_model_filter;
pub mod value;
