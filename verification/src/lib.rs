//! A small formatter for Rust syntax trees.
//!
//! [`fmt`] takes a parsed file and renders it back as source text with
//! uniform spacing and indentation.  It does not parse: the tree comes from
//! the caller, in the types of [`syntax`].  A tree that holds a construct for
//! which there is no rendering rule is not formatted in part: the call fails
//! as a whole.
//!
//! The parts of the crate:
//!
//! - [`syntax`]: the syntax tree;
//! - [`punct`]: separator tokens, delimited sequences and the policies that
//!   say how a separator is surrounded by whitespace;
//! - [`sink`]: the output sink [`FormatFile`], which indents what is written
//!   to it and renders scopes, and [`Sink`], its state as a mathematical
//!   value;
//! - [`literal`]: how literals are written;
//! - [`render`]: the rendering rules, as functions on the state of the sink;
//! - `visit_attr`, `visit_type`, `visit_expr`, `visit_item`: the code that
//!   renders, one function for each kind of node, each proved to do what its
//!   rule says;
//! - [`laws`]: what holds of the output whatever the tree.

pub mod error;
pub mod laws;
pub mod literal;
pub mod punct;
pub mod render;
pub mod sink;
pub mod syntax;
pub mod visit_attr;
pub mod visit_expr;
pub mod visit_item;
pub mod visit_type;

pub use error::Error;
pub use punct::{Add, Colon2, Comma, Or, Pair, Punctuated, Punctuation, Space};
pub use sink::{FormatFile, Sink, DEFAULT_INDENT};
pub use visit_item::fmt;
