//! Structural validation of an already-parsed HTML document against a small,
//! fixed rule set: a required `html` doctype, required top-level elements,
//! uniqueness of the singleton elements `title` and `base`, required
//! attributes on `img` and `a`, and childlessness of void elements.
//!
//! The engine walks the document tree once in pre-order, dispatching a check
//! per node kind while accumulating a [`ValidationContext`], then appends the
//! structural findings. Every rule is specified by a spec function and the
//! executable engine is verified against it; the external parser is reached
//! through [`validate_html`].

pub mod context;
pub mod engine;
pub mod laws;
pub mod messages;
pub mod parse;
pub mod rules;
pub mod strutil;
pub mod tree;

pub use context::Ctx;
pub use context::ValidationContext;
pub use engine::join_errors;
pub use engine::validate_document;
pub use engine::HtmlValidator;
pub use parse::validate_html;
pub use tree::Attribute;
pub use tree::DomNode;
pub use tree::NodeKind;
