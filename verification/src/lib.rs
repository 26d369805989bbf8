//! Safe construction of parameterized SQL from Jinja-style templates.
//!
//! A template is rendered against a context; every untrusted value passes
//! through an explicit `bind` step that replaces it in the output text with a
//! positional placeholder and records it in evaluation order. A render
//! returns the final SQL text together with the ordered list of bound values,
//! ready for a parameterized-query execution API.

pub mod accumulator;
pub mod context;
pub mod engine;
pub mod filters;
pub mod render;
pub mod resolver;
pub mod style;

pub use accumulator::Accumulator;
pub use context::CtxValue;
pub use filters::bind;
pub use filters::bind_in_clause;
pub use render::prepare_query;
pub use render::JinjaSql;
pub use render::JinjaSqlBuilder;
pub use render::RenderError;
pub use resolver::hash_query;
pub use style::IDQuoteChar;
pub use style::ParamStyle;
