//! Conversion of a parsed ECMAScript syntax tree into the Babel AST shape,
//! with positions, comment attachment and the Babel JSON wire form.

pub mod json;
pub mod ops;
pub mod ast;
pub mod decl;
pub mod source;
pub mod context;
pub mod convert;
pub mod wire;
pub mod laws;
pub mod alias;
