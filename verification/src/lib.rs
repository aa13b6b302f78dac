//! Named text templates, compiled into an in-process store and checked against
//! the properties that a set of component schemas declares.
//!
//! A caller registers component schemas, compiles template definitions that
//! name the components they draw on, and renders compiled templates with a
//! context. A template may read only what the schemas of its components
//! declare. Requests and replies travel as JSON in byte buffers.

pub mod assoc;
pub mod authorize;
pub mod codec;
pub mod compile;
pub mod engine;
pub mod interchange;
pub mod json;
pub mod laws;
pub mod operations;
pub mod outcome;
pub mod schema;
pub mod store;
pub mod text;

pub use crate::operations::compile_templates;
pub use crate::operations::register_component;
pub use crate::operations::render_template;
